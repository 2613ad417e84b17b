# bubblewrap

A Linux library and command-line tool that run a command in rootless
namespaces, in the manner of Bubblewrap.

- `src/` is the library, verified with Verus: the command builder and its
  validation, the user and group id maps of a new user namespace, the setup
  handshake between the sandbox processes and its one-byte messages, the mount
  plan of a sandbox root filesystem, and the reporting of exit statuses. Each
  public function has a contract; the properties that span functions are
  proof functions (`lemma_*`).
- `app/` is the command-line tool and the code that carries out the plans with
  system calls (fork, unshare, mount, pipes, execve).
- `tests/` runs the library on concrete inputs.
