# SnapDog OS Installer

A desktop application that writes a SnapDog OS image to an SD card: it fetches the release manifest
of the chosen channel, downloads and unpacks the image for the chosen board, launches an isolated
writer for the chosen removable drive, and reports what the writer does.

Everything that decides or computes is a Verus library under `src/`, proved against its contracts.
What only touches the system is an ordinary Rust program under `app/`.

## Layout

| Module | What it holds |
| --- | --- |
| `model` | boards, channels, drives, release manifests |
| `versions`, `urls`, `digest`, `text`, `paths` | versions, addresses, digests, text and paths with their models |
| `catalog` | the release catalog: where it lies, what it must hold, which releases can be installed |
| `download` | the download to a sibling file that is published only once its size and digest are right |
| `flash` | gzip preparation, raw writing and read-back verification |
| `drives` | removable drives on Linux, macOS and Windows, and their stable identifiers |
| `macos_native`, `windows_native` | what the system frameworks report, and what follows from it |
| `worker` | the isolated writer: its job, its session, its target, its progress |
| `pipeline` | the operation from the download to the writer's end, and its launch on each system |
| `reentry` | how the executable tells that it was re-entered as the writer |
| `app` | the state of the interface and what each screen shows |

## Machines

Where reading, writing and deciding alternate, the deciding part is a machine: a value with a
`step` function from an event to an action, whose contract is a pure function on its view. The
program under `app/` performs the action and hands the outcome back as the next event. Laws over
whole runs are proved on the pure functions.

## Trusted calls

SHA-256, hexadecimal text, semantic versions and addresses come from their crates, each behind one
small wrapper with a stated contract; so do a few functions of the standard library. A digest, a
parsed address and the order of pre-release identifiers are named, never redefined. The gzip stream
is unpacked where the file is read, under `app/`; the library takes the unpacked chunks.
