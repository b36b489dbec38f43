# macmon_tui

The state and the screen of a terminal monitor for Apple silicon machines: processors, memory,
power, temperatures, fans and the battery.

The library under `src/` is written in Verus. It holds everything that the monitor decides:

- `timer`: the time on battery, how a charge takes it back, and how a held charge is learned as
  full; `timer_laws` states what holds over any run of samples.
- `charge_limit`: the charge limit in the output of `pmset -g battlimit`.
- `battery`: the battery bar, its colour, the runtime, and the text on the power supply.
- `history`, `stores`, `cores`: bounded histories of what is measured, the last for each core.
- `event`, `app`: keys, events, and how they change the state.
- `geometry`, `style`, `draw`, `render`, `screen`: where everything stands on the screen, and what
  is drawn there, as a list of pieces.
- `text`, `units`, `config`, `metrics`: numbers in text and in gigabytes, settings, and
  measurements.

Numbers in floating point do not enter the library. The caller hands in what is read of them: the
value in the units of a history, the value written out, and the bits where they are needed again.

`app/` is the program around the library: the terminal, the threads, `pmset`, the arithmetic in
floating point, and the widgets that the pieces of the screen are drawn with. Where measurements
and stored settings come from is left to whoever implements its two traits.
