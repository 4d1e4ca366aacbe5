# broccoli

Search for small decision trees that control simulated environments
(mountain car, cart pole, pendulum), with the decisions of the search proved
in Verus.

- `src/` — the verified library:
  - `cli` reads the command-line values (environment names, Booleans);
  - `evaluator` keeps score while a tree is simulated from several initial
    states, rejecting it as soon as it cannot beat the best tree;
  - `search` is the bookkeeping of the search loop;
  - `solver` decides where the initial states come from;
  - `experiments` writes the shell scripts of the published experiments,
    with decimal rendering in `text`.
- `app/` — the program around it: argument parsing with clap, the
  simulations, random sampling of initial states, plotting, file output and
  the Python module.
- `tests/` — tests of the library.
