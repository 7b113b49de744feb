# sunflower

The logic of the Sunflower hobby x86 kernel, its floppy filesystem and its build tool,
verified with Verus.

- `src/` is the verified library:
  - `fs` — the floppy filesystem's on-disk formats (block pointers, inodes, the
    filesystem header, release dates), the inode table and block bitmap, and mounting;
  - `floppy` — the floppy controller driver's decisions: commands and their parameters,
    status bytes, the motor's state machine, retries, and transfers split at track
    boundaries;
  - `interrupts` — the keyboard (its scancode buffer, the decoder from `pc-keyboard`, and
    what each key does), the PIC, IDT entries, and the error screen;
  - `vga`, `gdt`, `time`, `speaker`, `sysinfo`, `startup`, `panic`, `ports`, `util` and
    `seeder` — the rest of the kernel's and the build tool's logic.
- `tests/` runs the library on concrete values.
- `app/` is the glue that does I/O: port reads and writes, the PS/2 controller setup, the
  serial port, the kernel's global state and loops, and the `seeder` command line tool.
