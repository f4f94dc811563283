# eternalmac

`eternalMac` turns a Mac Mini into a personal devserver for a laptop: it
sets up Eternal Terminal, tmux, Mutagen, Tailscale and launchd agents, and
attaches to remote sessions.

The library in `src/` holds the logic, each function with a contract that
Verus proves:

- `tooling/`: the command lines of `brew`, `et`, `tmux`, `mutagen`,
  `tailscale` and `nc`, and the parsers of what `tmux` and `mutagen` print.
- `process/runner.rs`: the `Runner` trait through which every command runs,
  the `Recorder` that keeps the commands run so far (so that contracts say
  exactly which commands ran, in what order, and that none ran after a
  failure), the checked run that turns a failed exit into an error, and
  where a program is looked for and in what order its paths are tried.
- `setup/`: server and client setup as steps between the library's
  commands and the caller's work on files (`server_flow`, `client_flow`),
  and recording configuration and state together with rollback
  (`persist`).
- `daemon/`: the daemons' health rules and one daemon round as steps.
- `config/atomic.rs`: replacing a file through a temporary file.
- `platform/launchd.rs`: the property list of a launch agent.
- `commands/`, `session/`, `sync/`: attaching, sessions and sync pairs.
- `text.rs`: the character-level text handling the rest builds on.

`app/` is the program around the library: command-line parsing, reading
and writing files, starting processes, the clock, and prompts.
