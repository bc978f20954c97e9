# tmtool

Reads, writes and write-protects keys in the two key slots (0xe0e8 and
0xe0e9) of an Infineon Trust M chip over i2c, and checks P-256 signatures
against such keys.

- `src/` is the verified library.
  - `protocol.rs`: registers, frames and the script of each conversation
    (read a key, write a key, lock a slot).
  - `session.rs`: a conversation as a state machine. The caller performs
    each action (open the device, one i2c attempt, a pause) and reports
    the outcome; the session decides on retries (at most 200 attempts per
    operation), pauses, the next step and the result.
  - `laws.rs`: what every conversation obeys (bounded retries, a finished
    conversation stays finished, a fully successful conversation performs
    its script in order and returns bytes 9..73 of the chip's last answer).
  - `keyfile.rs`: from a PEM key file to the write conversation.
  - `signature.rs`: P-256 signature checks through the `p256` crate.
  - `cli.rs`: the command line's arguments, the key slot check and the
    confirmation asked before locking.
- `app/` is the command-line program: argument parsing, files, the i2c
  device (through `i2cdev`), sleeping, printing.
- `tests/` runs the library against simulated chips and real signatures.
