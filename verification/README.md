# rust_aec

Real-time acoustic echo cancellation for Windows: the microphone and the
speaker's output are captured, the echo is cancelled, and the clean audio goes
to a virtual audio cable that other programs use as their microphone.

The library (`src/`) holds the rules of the program, with contracts that Verus
proves. The program (`app/`) performs what the library decides: WASAPI, the
registry, the tray icon, files, threads, and the floating-point work of the echo
canceller.

## Library

| Module | What it holds |
|---|---|
| `aec` | The audio format, and the output of a frame that the canceller failed on |
| `audio::device` | Devices, and how one is found by name, by identifier or by itself |
| `audio::pcm` | Device buffers to mono samples and back, resampling |
| `audio::capture`, `audio::loopback`, `audio::render` | What each audio thread does with a packet |
| `audio::session_monitor` | Who records from the cable, and what the engine is told of it |
| `autostart` | The registry value, and what the registry's answers mean |
| `config` | The saved selection |
| `engine` | The engine's state machine; its device choice, its frames and its laws |
| `startup` | The command line, and the devices that the program starts with |
| `sync` | Ring buffers between audio threads |
| `text` | White space, substrings, decimal numbers, UTF-16 |
| `tray` | The tray menu and its commands |

A sample is the bit pattern of a 32-bit float. Arithmetic on samples is handed
to the library as functions; the contracts say on which samples each one is
called, and where its result goes.

The engine is driven by events: each step takes what the last request brought,
and gives the threads to stop and the next request. What holds over all steps
stands in `engine::laws`.

## What is trusted

The contracts of the `ringbuf` calls in `sync`, and what `text` says of
`str::to_lowercase`: that its result depends on the text alone, and how it treats
the letters from A to Z.
