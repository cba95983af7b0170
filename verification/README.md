# keystore_security_level

The decisions that a Keystore security level takes for its clients, verified with Verus.

A security level makes and imports keys, and begins operations with them, on one KeyMint
device. Permissions are checked, the database and the device are asked, blobs are upgraded;
what is asked next depends on each reply. In `src/` every such request is a process: a value
that holds the arguments of the call it waits for, and that moves on when it gets the reply.
The contracts say for every reply what comes next, and the laws what holds of every run,
whatever the replies are: that nothing is asked of the device before the caller was found to
have the permission, that a blob is upgraded at most once and stored before it is used again,
that a client is told of the key that the device made, and with which error a request ends.

- `src/`: the library. `process` is the place to start.
- `tests/`: runs of the processes on concrete replies.
- `app/`: performs the calls. What only the Android platform has stands behind its trait
  `Platform`.
