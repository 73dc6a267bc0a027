# comfyui_launcher

The logic of a desktop launcher for a portable ComfyUI install, written in
Verus and proved against its contracts.

- `src/` is the verified library:
  - `text` — character-level helpers (white space, trimming, splitting,
    decimal numerals, code-point order) and the few standard-library calls
    they rest on;
  - `paths` — locations as a base directory plus joined components;
  - `config` — the install root, the locations inside it, and validation;
  - `state` — the supervised ComfyUI process: status, bounded log,
    generations, the transitions between them and their laws;
  - `restart` — the start/restart sequence as a step function from phase,
    process state and event to the next ones and an action, with its laws;
  - `launch` — how ComfyUI is spawned and stopped, its address, and the
    start-up wait for the main window's address;
  - `nodes` — custom nodes: reading git output, pulls, clones and update
    checks;
  - `listing` — the order custom nodes are listed in;
  - `menu` — File menu commands and their dispatch.
- `app/` is the Tauri shell: windows, menus, processes, files, network and
  the commands the web front end calls. It performs the I/O and hands the
  results to the library.
- `tests/` exercises the library on concrete values.
