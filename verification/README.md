# ssh_git_fw

A firewall for git over SSH. It listens as a SOCKS proxy, meets the client as an SSH server and the
git server as an SSH client, and runs a git command only where the rules allow it or the user does.

- `src/`: the verified library. `rules` judges commands and keeps the decisions, `known_hosts`
  keeps the keys of hosts and their file, `session` holds one proxied session, `proxy` the steps of
  a connection, `ui` the windows' questions and answers, `keys`, `target`, `config`, `model`,
  `str_map` and `text` what these are made of. What holds of a part as a whole is proved in its
  `laws` module or at the end of its file.
- `app/`: the program around it: arguments, files, sockets, SSH sessions, windows.
- `tests/`: the library at work on concrete values.
