# skimmer

Reads the entries a Miniflux server collected since the last run, groups them
into configured topics, asks a language model one question per topic, and
writes a markdown report and a self-contained HTML page.

## Layout

- `src/` — the library, verified with Verus. Every public function states what
  it returns in its `ensures`, over spec functions on plain values:
  - `text` — escaping, searching, splitting, replacing, trimming, joining and
    decimal rendering, each stated over the characters of the text;
  - `time` — instants with a four-digit year, their arithmetic, and the
    `chrono` calls that write and read them;
  - `config`, `state` — the settings of a run and the per-topic last-run
    stamps (a map whose read-back law is proved);
  - `rss` — the feed source and how its answers are judged; a sibling module
    holds the Messages API requests, their costs and how answers are read;
  - `topic` — which feeds a topic reads and where its window starts;
  - `report` — the markdown and HTML renderings, links only to scanned entries;
  - `app` — one run: prompts, briefings, stamps, and what is written at the
    end (nothing, in a dry run);
  - `run` — a whole run as a state machine: the caller performs each action
    and reports back; the report is written, then the state saved, then the
    entries marked read, and the first failure ends the run.
- `app/` — the program around it: command line, files, HTTP, logging.
- `tests/` — tests of the library on concrete values.
