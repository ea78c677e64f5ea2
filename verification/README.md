# snow64

The logic of the Snow64 fantasy console as a verified library.

- `src/render/colors.rs`: 16-bit colors (four 4-bit channels), packing and expansion.
- `src/render.rs`, `src/render/commands.rs`: the drawing layers and the commands scripts call on them.
- `src/config.rs`: reading the console's settings from the text of an ini file.
- `src/images.rs`: decoding PNG pictures into 8-bit RGBA.
- `src/frame.rs`, `src/utils.rs`: copying and filling frame buffers, the blending cases without mixing.
- `src/events.rs`: how the event loop reacts to window events.
- `src/programs*`: which programs can run, and the state of a loaded Rhai program.
- `app/`: the window, the event loop, file reading, logging, the Rhai engine, and floating-point blending.
