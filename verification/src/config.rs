//! What a user can set for the Jujutsu status segment.
use vstd::prelude::*;

verus! {

/// Settings of the Jujutsu status segment.
#[derive(Clone, Copy, Debug)]
pub struct JjStatusConfig<'a> {
    /// Shown before the change id.
    pub symbol: &'a str,
    /// Style of the segment.
    pub style: &'a str,
    /// Format string of the segment.
    pub format: &'a str,
    /// Grapheme clusters of the change id that are shown; zero or less
    /// shows all of them.
    pub truncation_length: i64,
    /// Put after a change id that was cut short.
    pub truncation_symbol: &'a str,
    /// Shown when the working-copy commit has conflicts.
    pub conflicted: &'a str,
    /// Shown when the working-copy change is divergent.
    pub divergent: &'a str,
    /// Shown when the working-copy commit is hidden.
    pub hidden: &'a str,
    /// Whether `jj` runs with `--ignore-working-copy`, which skips taking a
    /// snapshot of the working copy.
    pub ignore_working_copy: bool,
    /// Whether the segment is off.
    pub disabled: bool,
}

impl<'a> Default for JjStatusConfig<'a> {
    fn default() -> (c: Self)
        ensures
            c.symbol@ == "jj "@,
            c.style@ == "bold purple"@,
            c.format@
                == "[$symbol$change_id]($style)( [$bookmarks]($style))([ $conflicted$divergent$hidden]($style)) "@,
            c.truncation_length == 8,
            c.truncation_symbol@ == "…"@,
            c.conflicted@ == "×"@,
            c.divergent@ == "?"@,
            c.hidden@ == "◌"@,
            c.ignore_working_copy,
            c.disabled,
    {
        JjStatusConfig {
            symbol: "jj ",
            style: "bold purple",
            format: "[$symbol$change_id]($style)( [$bookmarks]($style))([ $conflicted$divergent$hidden]($style)) ",
            truncation_length: 8,
            truncation_symbol: "…",
            conflicted: "×",
            divergent: "?",
            hidden: "◌",
            ignore_working_copy: true,
            disabled: true,
        }
    }
}

} // verus!
