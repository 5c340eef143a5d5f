# pisugar

Power management for the PiSugar UPS boards of the Raspberry Pi, with its
logic verified by Verus.

`src/` is the verified library:

- `bcd`, `rtc`, `clock`: BCD clock registers and their times.
- `regs`: register programs as data, with their meaning on a register file.
- `sd3078`, `pisugar3`, `ip5209`, `ip5312`, `standalone`: the register
  programs of each chip, and how register values are read.
- `tap`, `model`, `config`, `error`: button taps, board models, settings.
- `text`, `numtext`, `radix`, `path`: number and path texts as std reads them.
- `cmds`, `cmd_parse`, `server`: the command grammar of the server and its
  answers.
- `supervisor`: the decisions of the core between its chip operations.
- `webtime`: the time of a web server's `Date` header, for the clock sync.
- `session`: request lines, answer lines and login tokens.
- `programmer`: the firmware programmer's arguments and handshake.

`app/` holds the programs around it: the server (TCP, Unix socket,
websocket and http), the poweroff helper, the firmware programmer and the
standalone tool, with the I2C bus, files, clocks and real-valued readings.
