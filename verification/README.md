# ppl_service

Creates and removes a Windows service, optionally one that runs as a
protected anti-malware light process (the ELAM certificate of a shipped
driver is installed first, and removal asks the running service to drop its
protection with control code `0x80` before stopping it).

- `src/` is the verified library: the command line (`cli`), the four
  procedures as a state machine (`procedure`) and what holds of all their
  runs (`procedure_laws`), how the results of Windows calls are read
  (`winapi`, `handle`), error texts (`error`, `text`) and the driver image
  (`elam`, which decompresses through `flate2`).
- `app/` is the program: it reads the arguments, performs the Windows calls
  that a procedure asks for, sleeps, prints, and hands the replies back.
- `tests/` runs the library on concrete values.
