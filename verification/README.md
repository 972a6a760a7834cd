# libra

A desktop viewer for iOS devices connected over usbmuxd: it lists the
connected devices, shows the details that lockdown reports for the selected
one, and keeps its storage, battery and wallpaper up to date.

- `src/` is the verified library: the table of marketing names and its
  parser (`utils`), the device record built from lockdown values and the
  watchers of device events (`backend`), the records (`models`), the
  messages (`message`), the application state machine and what each screen
  shows (`ui`), with string and hexadecimal helpers (`text`, `hex`).
- `app/` is the iced window and the device I/O through `idevice`; it
  performs the commands and watcher actions that the library chooses.
- `tests/` runs the library on concrete values.

The application reads the product-type table from `resources/PT.txt`
(one `ProductType : Name` pair per line) when it starts.
