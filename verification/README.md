# HoverDict

HoverDict shows translations of whatever text is selected with the mouse: a word is
looked up in a local dictionary, a sentence goes to a language model, and the
outcome appears in a popup beside the mouse.

`src/` is a library verified with Verus. It holds the rules of the program and
none of its input and output: work that alternates with the outside world is a
dialogue in which the library takes the last answer and returns the next demand.

| module       | what it decides                                                    |
|--------------|--------------------------------------------------------------------|
| `capture`    | getting the selection off the clipboard and putting the clipboard back |
| `dictionary` | the lookup in the database                                         |
| `llm`        | the exchange with the translation service                          |
| `route`      | who translates a text, and what the user is told                   |
| `window`     | showing, raising, placing and putting away the popup               |
| `layout`     | the size and the place of the popup                                |
| `popup`      | what the popup shows                                               |
| `menu`       | the menu in the tray                                               |
| `mouse`      | telling a selection from a click                                   |
| `translator` | results and configuration                                          |
| `text`, `json`, `fonts`, `icon`, `palette`, `taskbar` | what these rest on        |

Each function states in its contract what it returns or changes. Public proof
functions named `law_..` state what holds across functions: that a capture puts
the clipboard back, that the popup stays within the margins of the screen, that
the window is on the screen exactly while it should be visible, and the like.

`tests/` runs the library, `app/` is the program round it. `app/` carries out what
the library demands, and with it the order of the steps of one demand: choosing
another model is to load the configuration, to select the model in it, to store it
and to build the menu anew.

`Cargo.toml` names the crates of the library and its tests, and those of `app/` that
read and send. The window, the tray, the mouse, the keys and the notifications of
`app/` come from `eframe`, `tray-icon`, `rdev`, `enigo` and `notify-rust`. These
need the libraries of a desktop and pull in several hundred packages, so they are
left to the build of the program. That build also takes `icon.ico`, which belongs
beside `Cargo.toml`, into the program; `dict.db` and `models.json` are read from
the directory in which the program is started.
