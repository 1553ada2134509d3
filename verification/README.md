# gstplugins

Media plugins whose decisions are verified with Verus:

- `playbinpoolsrc` and `uridecodepoolsrc`, sources that play through pools of
  pipelines, so that a pipeline can be prepared ahead of its use, used again,
  or kept while a composition changes its stack;
- `memory-tracer`, which logs the memory that a pipeline allocates and frees;
- `skiareshape` and `skiareshapegl`, which crop, pad and round video frames.

`src/` is the verified library. It holds no pipeline, pad or surface: it works
on plain values, decides what is to be done, and is told how it went. Times are
nanoseconds, objects are handles, and floating-point numbers are carried by
their bits. Public proof functions named `law_*` state what holds across
several calls.

`app/` holds the elements themselves: it owns the pipelines and the drawing,
performs what the library decides, and adds up the fractional coordinates whose
terms the library gives. `tests/` exercises the library on concrete values.
