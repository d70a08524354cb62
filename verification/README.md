# depthai

The host side of the XLink protocol that DepthAI cameras speak over the network: finding devices,
booting their firmware, exchanging events and streams with them, calling their methods and
building the pipelines that they run.

`src/` is the library. Verus proves the contracts of its functions; those of the few that call
other crates are stated where they are declared.

| Module | What it does |
| --- | --- |
| `wire`, `name`, `table`, `text`, `float`, `clock` | integers on the wire, stream names, small tables, decimal text, floating-point numbers as bits, time |
| `event` | event headers and the events that a host sends |
| `io`, `io_laws` | the exchange with a device as a state machine, and what holds of every exchange |
| `connection`, `chunks` | streams of a connection, what is waited for, writing in pieces |
| `discovery` | requests for devices and their responses |
| `bootloader`, `firmware` | messages to the bootloader, and the firmware in its archive |
| `rpc` | calls, their replies and the types they carry |
| `pipeline`, `pipelines` | nodes, links and queues; the pipelines for the common uses |

`app/` is a program around the library. It owns the sockets, the tasks and the files, and the
copies of the library's types that carry `serde` derives. It reads the firmware from `firmware/`
in its working directory.

Floating-point numbers are held as their bits (`Float32`, `Float64`) and compared as IEEE 754
says. Properties and metadata are written and read by functions that the caller passes in, so
that the library itself does not depend on their format.

`tests/` runs the library on concrete values.
