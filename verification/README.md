# waywire

waywire is a remote desktop built around a headless compositor. A gateway runs the
compositor, relays its H.264 video, its cursor and its clipboard to browsers, and
sends a browser's input back.

This crate is the logic of both programs, written in [Verus](https://github.com/verus-lang/verus)
and proved against its contracts. Time is passed in as a value, shared state is a plain
value behind `&mut`, and everything that waits, reads or writes is left to the program
around it: the library says what to do next and is told what came of it.

## Layout

| modules | subject |
| --- | --- |
| `values`, `messages`, `clock`, `text`, `bits` | checked values and plain helpers |
| `rtp`, `assembler`, `correlator`, `pipeline`, `hub`, `readiness`, `drops` | video from the encoder's packets to the viewers' queues |
| `quality`, `session`, `commands` | adaptive quality, input ownership, the command queue |
| `control`, `stream`, `socket`, `outbound`, `queue`, `events`, `http`, `cursor` | the sockets, what they carry, who may open them |
| `daemon`, `options`, `shutdown`, `timings` | running the compositor, options, an orderly end, stage timings |
| `desktop`, `encoder`, `frames`, `h264` | the compositor's state, its encoder and the frames it hands over |
| `geometry`, `windows`, `decoration`, `input`, `clipboard` | floating windows, their decorations, input devices, selections |

`app/` is the gateway program: command line, sockets, processes and the JSON encodings.
Floating-point coordinates, drawing and the Wayland protocol objects are outside the
library as well; it works on rounded coordinates, identities and events.

## Reading the contracts

Most types have a `view` or a model type next to them, and each operation's `ensures`
equates the new view with a spec function of the old one. What holds across operations
is stated in public proof functions whose names begin with `law_`.

The calls that are believed rather than proved are `tokio`'s `try_acquire_many_owned`
and `try_send` in `queue`, `url`'s parser in `http`, the PNG and base64 encoders in
`cursor`, and `String::from_utf8` in `text`. Each says in its comment what it claims.
