# danmu_terminal

The logic of a terminal for live-stream chat: what arrives and is shown, what is typed and sent,
the assistant whose replies the user approves, and the settings around all of it.

- `src/` is a verified library. It holds no I/O: what happened outside comes in as plain values,
  and what is to be done outside goes out as an answer.
- `app/` is the terminal itself: drawing, keys, files, prompts and the loop of a session.
- `tests/` runs the library on concrete values.

## Where to begin

| Part | Modules |
| --- | --- |
| The program as a whole | `app`, `app_commands`, `app_events`, `app_facts`, `app_input`, `app_panel`, `app_permission`, `app_review`, `app_run`, `reports` |
| Messages and sending | `domain`, `events`, `feed`, `stream`, `delivery`, `gift`, `send`, `segments`, `activity`, `notice` |
| The assistant | `accounts`, `automation`, `permission`, `review`, `review_text`, `ai_settings` |
| Settings | `panel`, `panel_keys`, `panel_actions`, `panel_edits`, `panel_details`, `menu_text`, `fields`, `commands` |
| The line that is typed | `desk`, `input`, `keys` |
| The beginning | `startup`, `startup_view` |
| What is drawn | `event_view`, `input_view`, `status_view`, `screen`, `popups`, `meter`, `qr`, `style`, `geometry`, `unicode`, `text` |

Instants are milliseconds of a clock that only goes forward; times of day are milliseconds since
1970. Public proof functions whose names begin with `law_` state what holds of the library as a
whole.
