# prefix_by_date

Prefixes file names by a date: one found in the name by a pattern, today's
date, or the creation or modification time of the file.

The library (`src/`) is verified with Verus:

- `replacement`: splitting a path into parent, stem and extension, and the
  paths before and after a rename;
- `matcher`: the matchers (patterns, a date chosen in advance, file times)
  and the dates they resolve and print;
- `processing`: the run as a state machine, from events to commands, with the
  laws it keeps (`processing::laws`), the log lines it writes and the texts
  of its desktop notification;
- `ui`: the actions offered to the user, the state of an interactive front
  end, the decisions of the terminal dialog and of the window front end, and
  their laws (`ui::laws`);
- `application`: the settings from the configuration file and the command
  line, and the matchers they call for (`application::laws`);
- `config`: the configuration file's TOML text, parsed into tables.

The program (`app/`) parses the command line, reads the configuration file,
sets up logging, talks to the terminal and the file system, and drives the
library's state machines. It has no window and sends no desktop
notification: those front ends need crates this build does not include, and
asking for the window falls back to the front end that never asks.
