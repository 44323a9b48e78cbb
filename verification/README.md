# polkit-tui-agent

A polkit authentication agent for the terminal. It asks for passwords in its own terminal, or in
popups of tmux by way of a daemon and a controller.

- `src/` is the library: what the agent, the daemon, the controller, the popup and the dialog
  decide, as state machines and functions on plain values. Verus proves what their contracts say;
  functions named `law_..` state what holds across several of them.
- `app/` is the program: it reads, writes, draws and waits, and does what the library says.
- `tests/` runs the library on examples.

Passwords go from the dialog to `polkit-agent-helper-1` and nowhere else. Moments are counted in
nanoseconds, and the channels that wait for an answer of the dialog are numbered, so that the
library needs neither a clock nor a runtime.

What is taken on trust of other crates is marked in the source by `external_body` and
`assume_specification`: the width of characters and texts (unicode-width), where a centered area
and the inside of a border lie (ratatui), who the current user is and what users are called
(uzers), and `String::push`. Of the two calls into uzers nothing is said at all, since their answers
are up to the system; contracts say what is asked of them and what is made of the answers.
