//! The credits screen.
use vstd::prelude::*;

verus! {

/// One person credited, with what they did and where to find them.
pub struct Credit {
    pub name: String,
    pub role: String,
    pub url: String,
}

/// Whether `r` lists the people credited: the developer of the
/// application, then the author of the device library it uses.
pub open spec fn is_credits(r: Seq<Credit>) -> bool {
    &&& r.len() == 2
    &&& r[0].name@ == "Nyasami"@
    &&& r[0].role@ == "Developer"@
    &&& r[0].url@ == "https://github.com/nyasami"@
    &&& r[1].name@ == "jkcoxson"@
    &&& r[1].role@ == "idevice"@
    &&& r[1].url@ == "https://github.com/jkcoxson"@
}

/// The people credited.
pub fn view() -> (r: Vec<Credit>)
    ensures
        is_credits(r@),
{
    let mut r: Vec<Credit> = Vec::new();
    r.push(
        Credit {
            name: String::from_str("Nyasami"),
            role: String::from_str("Developer"),
            url: String::from_str("https://github.com/nyasami"),
        },
    );
    r.push(
        Credit {
            name: String::from_str("jkcoxson"),
            role: String::from_str("idevice"),
            url: String::from_str("https://github.com/jkcoxson"),
        },
    );
    r
}

} // verus!
