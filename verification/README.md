# ncoxide

A modal dual-pane file commander for the terminal. The library in `src/`
holds its logic, verified with Verus: the panes (listing order, navigation,
selection and globs, transfer guards), the modes and the session state
machine that turns keys into effects, the pager, in-file search, the fuzzy
finder and line filter, the windowed reader's line walks, the preview plans
and highlight spans, the image view's request rule, the terminal probe's
decisions and report, and the texts of the screen.

`app/` is the program around it: the command line, logging, configuration
files, the terminal and its drawing, file system work and background
threads. It performs what the library decides.

`tests/` exercises the library on concrete values.
