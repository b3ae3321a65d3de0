# facegate

Face authentication for Linux: a PAM module hands `sudo` and login/session
authentication to a helper, which captures camera frames and asks a local broker
daemon to match them against the user's enrolled face templates. The broker owns the
templates, rate-limits and locks out abusers, keeps an audit log, and speaks a
versioned JSON protocol (v3) over a Unix socket.

## Layout

- `src/` is the library, written in Verus: every function carries a `requires` /
  `ensures` contract that Verus proves. It holds the configuration model and its
  validation, the configuration editor's sections and their read-back, the template
  store and its file format, the broker's request dispatch, rate limiting and lockout,
  the authentication and lock-screen scan state machines, the PAM file editing, the
  user log, and the text of every report the commands print. Public `law_*` proof
  functions state properties that span several functions (round trips, what a refusal
  is answered with, what every step keeps).
- `tests/` runs the library on concrete values.
- `app/` is the program around the library: command-line parsing, the terminal
  menus, the broker daemon's socket and files, the D-Bus lock-screen watcher, and
  the floating-point work (similarity scores, calibration statistics, cross-stream
  geometry). It decides nothing that the library decides; it performs the I/O each
  library step asks for and hands the outcome back.

The camera, face detector and face embedder in this tree are stand-ins that report
that no hardware or model is available.
