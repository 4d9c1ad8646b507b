# catalog_conformance

A conformance suite for catalogs: the part of a time series database that keeps its namespaces,
tables, columns, partitions and files. The suite says what any catalog has to do, whatever it is
built on, and finds out whether a given one does.

## How it works

A scenario is a sequence of requests, each of which may depend on the replies before it, together
with a judgement of each reply. It is given by three functions of the replies heard so far:

- what is asked for next,
- whether the last reply is as it has to be,
- whether everything has been asked for.

A `run::Run` puts them together. `action` tells the next request, or that the scenario has passed or
failed; `deliver` takes the reply. A run does no input or output and never panics. The scenarios
stand in `src/scenarios/`, and `suite` starts a run of each by name.

Everything in `src/` is verified with Verus. The executable functions are proved to do what the
functions of the same name say over sequences of replies. `src/laws/` states and proves what a
catalog has shown once it has passed: that no change of a namespace is lost, that reads respect soft
deletion, that sort keys are compared and swapped, that requests which fail change nothing, that
partitions are removed exactly where they hold nothing and never will again, and more. Nothing is
taken on trust beyond Verus and its standard library.

## Layout

- `src/`: the library
  - `types`, `request`, `reply`: what is asked for and what comes back
  - `text`, `order`, `same`, `sorting`, `naming`, `metrics`, `retention`: comparisons
  - `expect`, `check`: judgements of replies, as they are meant and as they are computed
  - `scenarios`, `run`, `suite`: the scenarios, how they run, and how they start
  - `nesting`: scenarios that run other scenarios
  - `laws`: what passing means
- `tests/`: every scenario against a catalog in memory, sound and with faults
- `app/`: an asynchronous driver that runs the suite against a catalog
