# tos_dream

The core of a tactical desktop compositor: sectors of command hubs seen at
three depths (global overview, command hub, application focus), with shells
on pseudo-terminals, a security screen for dangerous commands, collaboration
between participants, remote sectors, earcons and accessibility input.

The library in `src/` is written in Verus. Its functions carry contracts over
mathematical models of the state (sequences, maps and views of each type),
and Verus proves them:

- `dispatch` handles the interface's requests: how the state changes and
  which effects (terminal writes, signals, sounds, searches) the caller is to
  carry out;
- `shell_session`, `shell_api`, `pty` and `terminal` read what shells print,
  including the private escape sequences that report directories and
  listings;
- `security`, `collaboration`, `remote`, `remote_link` and `reset` hold the
  rules of dangerous commands, roles and invitations, remote links and
  tactical resets;
- `advanced_input`, `voice`, `earcons`, `earcon_player`, `audio`, `themes`
  and `perf_monitor` turn devices, speech, sounds and frame rates into
  decisions;
- `hub_render`, `hub_modes`, `global_render`, `bezel`, `minimap`,
  `app_views`, `confirm_render`, `render` and `svg` draw the interface as
  HTML or SVG, each equal to a specification of the page.

Quantities the interface shows as decimals are kept in thousandths or
tenths. Calls into other crates (clock, identifiers, regular expressions,
base64, case mapping) stand behind small trusted functions whose contracts
say what those crates document.

`app/` is the host around the library: it starts shells on
pseudo-terminals, runs the effects that requests ask for, and reads
processes and directories from the machine.
