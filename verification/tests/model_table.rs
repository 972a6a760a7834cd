use libra::utils::{human_readable_model, ModelTable};

fn name_of(text: &str, product_type: &str) -> String {
    let table = ModelTable::parse(text);
    human_readable_model(&table, product_type)
}

#[test]
fn listed_product_type_gets_its_name() {
    let text = "iPhone14,2 : iPhone 13 Pro\niPhone14,3 : iPhone 13 Pro Max\n";
    assert_eq!(name_of(text, "iPhone14,2"), "iPhone 13 Pro");
    assert_eq!(name_of(text, "iPhone14,3"), "iPhone 13 Pro Max");
}

#[test]
fn unlisted_product_type_is_shown_as_is() {
    let text = "iPhone14,2 : iPhone 13 Pro\n";
    assert_eq!(name_of(text, "iPad99,1"), "iPad99,1");
    assert_eq!(name_of("", "iPhone14,2"), "iPhone14,2");
    assert_eq!(name_of(text, ""), "");
}

#[test]
fn keys_and_names_are_trimmed() {
    let text = "  iPhone1,1   :   iPhone  \r\n\t iPad1,1 : \tiPad\t\r\niPod1,1 :\tiPod";
    assert_eq!(name_of(text, "iPhone1,1"), "iPhone");
    assert_eq!(name_of(text, "iPad1,1"), "iPad");
    // " :\t" is not the separator " : ".
    assert_eq!(name_of(text, "iPod1,1"), "iPod1,1");
    assert_eq!(name_of(text, "  iPhone1,1"), "  iPhone1,1");
}

#[test]
fn unicode_whitespace_is_trimmed() {
    let text = "\u{3000}Watch1,1 : Apple Watch\u{a0}\u{2009}";
    assert_eq!(name_of(text, "Watch1,1"), "Apple Watch");
}

#[test]
fn later_line_for_the_same_key_wins() {
    let text = "A : first\nB : other\nA : second";
    assert_eq!(name_of(text, "A"), "second");
    assert_eq!(name_of(text, "B"), "other");
}

#[test]
fn lines_without_separator_are_skipped() {
    let text = "A:B\nC :D\nE: F\n\n   \nG : H";
    let table = ModelTable::parse(text);
    assert!(table.get("A:B").is_none());
    assert!(table.get("A").is_none());
    assert!(table.get("C").is_none());
    assert!(table.get("E").is_none());
    assert_eq!(table.get("G"), Some("H".to_string()));
}

#[test]
fn split_happens_at_the_first_separator() {
    let table = ModelTable::parse("A : B : C");
    assert_eq!(table.get("A"), Some("B : C".to_string()));
    assert!(table.get("A : B").is_none());
}

#[test]
fn separator_is_looked_for_after_trimming() {
    // " : x" trims to ": x", which holds no " : "; "k :  : v" splits after "k".
    let table = ModelTable::parse(" : x\nk :  : v");
    assert!(table.get("").is_none());
    assert_eq!(table.get("k"), Some(": v".to_string()));
}

#[test]
fn empty_text_gives_empty_table() {
    let table = ModelTable::parse("");
    assert!(table.get("").is_none());
    let empty = ModelTable::empty();
    assert!(empty.get("iPhone14,2").is_none());
}

#[test]
fn second_block_overrides_first_block() {
    let first = "A : a1\nB : b1";
    let second = "A : a2\nC : c2";
    let joined = format!("{}\n{}", first, second);
    assert_eq!(name_of(&joined, "A"), "a2");
    assert_eq!(name_of(&joined, "B"), "b1");
    assert_eq!(name_of(&joined, "C"), "c2");
}

#[test]
fn single_line_reads_back() {
    let table = ModelTable::parse("iPod9,1 : iPod touch (7th generation)");
    assert_eq!(table.get("iPod9,1"), Some("iPod touch (7th generation)".to_string()));
}

#[test]
fn matches_std_split_of_lines() {
    let text = "x1 : one\r\ny2 :  two words \n bad line\nz3 : three : more\n\nw4 : four";
    let table = ModelTable::parse(text);
    let mut expected = std::collections::HashMap::new();
    for line in text.lines() {
        let line = line.trim();
        if line.is_empty() {
            continue;
        }
        if let Some((k, v)) = line.split_once(" : ") {
            expected.insert(k.trim().to_string(), v.trim().to_string());
        }
    }
    for (k, v) in expected.iter() {
        assert_eq!(table.get(k), Some(v.clone()));
    }
    assert!(table.get("bad line").is_none());
    assert_eq!(expected.len(), 4);
}
