# rustair

A verified model of the MITS Altair 8800 and its cards, written in Verus.

- `src/` is the library. Every executable function carries a `requires` /
  `ensures` contract over a mathematical view of its state, and Verus proves
  it. Public `lemma_*` proof functions state the properties that span several
  calls (disk timing, serial overrun behaviour, debugger stepping, loop
  detection, and so on).
  - `cpu8080_cycle`: the T-state 8080 core (fetch, READY wait states, RESET).
  - `decoder8080`, `disasm`, `explain8080`, `trace8080`, `debugger8080`,
    `debugger_control`, `backend`: instruction decoding and the debugger.
  - `mc6850`, `machine::{two_sio, sio, sio_interface}`: the serial boards.
  - `machine::{fd400_media, fd400, dcdd_read, dcdd_write}`: the Pertec
    FD-400 drive and the 88-DCDD controller electronics.
  - `machine::{front_panel, cpu_board, panel_bus, panel_state, panel_duty}`:
    the front panel and the S-100 signals it shows.
  - `machine::{io_trace, cpu_diagnostic}`: I/O tracing and the CP/M
    diagnostic meter.
  - `io::{serial_router, com_link, tcp_link}`: cabling of serial endpoints and
    the decisions of the host serial transports.
- `app/` holds the host side of the transports: the COM-port worker thread
  (`serialport`) and the TCP server sockets, which hand what happened to
  `io::com_link` and `io::tcp_link`.
- `tests/` runs the library on concrete values.
