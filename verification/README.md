# deployer

A small tool that deploys services to hosts over ssh, with its decisions
verified by Verus.

- `src/` is the verified library: the model of services and targets
  (`service`, `target`), the shell commands that manage a service on a Linux
  host (`os`), the local processes the tool starts (`process`), what the ssh
  connection decides on its own (`connector`), and the deployment itself as
  a state machine (`deploy`): it is told what happened and answers with the
  next thing to do.
- `app/` is the program around it: the command line, reading the TOML files,
  the ssh client, git and the other processes, template rendering, and the
  loop that carries out the actions the state machine decides.
- `tests/` runs the library on concrete values.
