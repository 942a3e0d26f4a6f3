# Folio

Folio is a small Windows browser with separate profiles. Its executable is either the profile
picker or the browser of one profile.

`src/` is the library: everything the browser decides, verified with Verus. It works on plain
values and touches neither disk nor windows. `app/` is the program around it: files, databases,
processes, and the windows that Tauri and WebView2 show.

## The library

| Module | What it decides |
| --- | --- |
| `cli` | which process an executable is launched as |
| `profile`, `registry` | profiles, their identifiers and where their data lies |
| `tasks`, `migration` | changes of the registry that take several steps on disk |
| `picker` | what the picker lists and accepts, and how it waits for a browser |
| `history`, `query`, `search`, `pages`, `ledger` | the browsing ledger, its search and its laws |
| `download`, `download_manager`, `download_laws`, `filename` | the download ledger, running downloads and their laws |
| `navigation`, `address` | where the browser goes, and which visit an event belongs to |
| `tabs`, `tab_laws`, `popup`, `views`, `window`, `icon` | tabs, popup links, web views, titles, shortcuts and icons |
| `export`, `json`, `export_laws`, `timestamp` | exported files and their laws |
| `paths`, `text` | places in the file system, and texts |

Writes to a database are functions from the row that it holds to the row that it is to hold. Work
on disk or on web views is a list of steps, or a task that names its next step and is told how the
step went. The time is always an argument.

What outside crates compute is declared where it is used, with what is assumed of it: `url` in
`address`, `time` in `timestamp`, `uuid` in `profile` and `export`, `serde_json` in `json`, `base64` in
`icon`.
