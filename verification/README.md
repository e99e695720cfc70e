# ptp_driver

The decisions of a Precision Time Protocol node, verified with Verus, and a
driver that carries them out on tokio with statime as the protocol engine.

A node is two tasks with one port between them. The port task runs the port:
it hands the port what happens and carries out what the port asks for. The
other task now and then stops the port task, takes the port, runs the best
master clock algorithm (BMCA) on it and sends it back.

`src/` is the verified library.

- `socket`: the addresses that messages go to, and the opening of the UDP sockets
- `channel`: a socket that is reached through channels
- `timer`: a timer that fires once for each time it is set
- `timers`: the timers of a port task
- `action`: what is done for each action that a port asks for
- `port_task`: the steps of the port task, and its timers across them
- `bmca`: the steps of the task that runs the algorithm
- `node`: what holds of the two tasks together
- `config`: the settings of a node

`app/` is the driver: tasks, channels, timers, clocks and sockets. `tests/` runs
the library on concrete values, some of them with ports of statime.
