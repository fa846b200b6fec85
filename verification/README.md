# tiny-dfr

A daemon for the Touch Bar of Apple laptops under Linux. It draws layers of keys and widgets,
follows the focused window, the media player, the browser, Neovim and terminal agents, and sends
key presses and actions for what is touched.

- `src/` is the library: configuration, layers, widgets, the state of the bar, and the rules and
  formats of everything it talks to. It is verified with Verus; each function states in its
  contract what it returns or changes, and the functions named `law_..` state what holds across
  functions.
- `app/` is the program around it: devices, sockets, processes, drawing and the event loop.
- `tests/` runs the library on concrete values.

What the library takes on trust are the contracts of the few functions of other crates that it
calls: JSON documents (`json`), time formats and locales (`widgets/indicator`), image decoding
(`widgets/browser_tabs`), D-Bus object paths (`mpris`) and three functions of the standard
library (`text`). Each of them says in its comment what is claimed.

## Configuration

`/usr/share/tiny-dfr/config.toml` holds the defaults. `~/.config/tiny-dfr/config.toml`, or else
`/etc/tiny-dfr/config.toml`, overrides them entry by entry; a layer that it names replaces the
built-in layer of that name, except for the sliders.
