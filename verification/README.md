# Joséphine

A quiet guardian for one Linux machine: it reads the machine's state, judges
it with a handful of checks, and tells you — warmly, in English or French —
what needs attention and what to do about it.

## Layout

- `src/` — the verified library (Verus). Every function carries a contract
  over mathematical models (`Seq<char>` for text, integers for measures).
  - `check`, `config`: results, metrics, severities and thresholds.
  - `checks/`: the filesystem, pressure (PSI), reboot and SMART verdicts,
    from what the caller read off the machine.
  - `remedy`, `explain`, `doctor`, `report`, `status`, `style`: the advice
    table, the remedies for checks in default, and the text each command
    prints.
  - `text`, `fixed`, `i18n`: characters, fixed-point rendering, and the two
    languages.
  - `json`: JSON documents as `serde_json` reads them (the one call made
    outside the library), member lookup, and numbers read in hundredths.
- `app/` — the program around it: argument handling, reading `/proc`,
  `/sys` and running `smartctl`, the stored history, printing, and the
  trend forecast (floating point).
- `tests/` — tests of the library's public functions.

Measured values (percentages, load averages, wear) are fixed-point numbers
in hundredths of their unit, so `9050` is `90.50 %`. A value of `m`
hundredths is rendered as `{:.N}` renders the `f64` nearest to `m / 100`:
a decimal tie such as `90.35` to one decimal goes the way that double lies
(`90.3`), and to the even neighbour when the double is the tie itself
(`0.25` → `0.2`). This holds below `2^45` units; beyond that, ties go to the
even neighbour.
