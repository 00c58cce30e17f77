# jj_status

The Jujutsu status segment of a shell prompt, verified with Verus.

- `src/config.rs`: the segment's settings and their defaults.
- `src/lines.rs`: line splitting as `str::lines` does it, with its laws.
- `src/truncate.rs`: truncation to a number of grapheme clusters
  (clusters come from `unicode-segmentation`).
- `src/status.rs`: reading `jj log` output, the values shown, and `module`,
  which decides each next step (look for the repository, run `jj`, place
  the values into the format string, stop) from the configuration and the
  outcome of the last step.
- `app/lib.rs`: the configuration as read with serde, and a driver that
  performs the outside steps and logs.

Parsing the format string, placing the values into it and styling them is
done by the prompt that hosts the segment; `module` decides what its
outcome means (a format string that does not parse shows nothing).
