# microvm_builder

An on-demand manager for a MicroVM that serves as a Nix builder. A daemon
listens on a Unix socket. The first connection starts the VM (gvproxy and a
microvm.nix runner); connections are proxied to the VM's SSH server; once the
last one has been closed for a while, the VM is stopped.

`src/` is the verified library: every decision of the manager, and none of its
I/O. An operation is a value that names the next thing to do; `advance`,
`after`, or a method called after the answer, takes the answer and names what
comes next. Public proof functions state what holds of whole runs, such as the
grace period between `SIGTERM` and `SIGKILL` (`terminate`), that the start
timeout bounds a start as a whole and that a failed start leaves no process
behind (`vm`), that outdated idle shutdowns are cancelled (`state`), and that
VMs are started and stopped one at a time, callers that come at once sharing
one start (`serial`).

`app/` is the program: the command line, logging, processes, sockets, signals.

What is trusted: that `nix` tells `ESRCH` by its code (`process`), and that
`String::from_utf8_lossy` depends on the bytes alone and decodes valid UTF-8
(`path`).
