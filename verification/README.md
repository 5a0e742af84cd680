# gpu_observer

A terminal GPU/CPU/RAM monitor: GPU temperature, utilisation, power, clocks,
fan, VRAM, system RAM, per-core CPU load, utilisation history sparklines and
the processes using the GPU.

- `src/` is the verified library: the metric types, the rolling sample
  history, the application state and key handling, the colour theme, the text
  formatting, and what each panel shows (values, colours, texts, whether it
  has room, where the temperature digits go and how many core bars fit),
  each with its contract.
- `app/` is the program around it: the collectors that read the hardware
  (NVML, sysinfo) on background tasks, the terminal event loop, the
  percentages that go through floating point, and the row layout and drawing
  of the panels with ratatui.
- `tests/` runs the library on concrete values.
