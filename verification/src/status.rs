//! The Jujutsu status segment: reading what `jj log` printed, and the
//! decisions between the outside steps (finding the repository, running
//! `jj`) that lead to the values the prompt shows.
use vstd::prelude::*;

use crate::config::JjStatusConfig;
use crate::lines::{self, split_lines};
use crate::truncate::{self, truncate_text};

verus! {

/// Template that `jj log` prints with: the full change id, the local
/// bookmarks joined by spaces, then whether the commit is conflicted,
/// divergent and hidden, one per line.
pub const JJ_TEMPLATE: &'static str = "change_id ++ \"\\n\" ++ local_bookmarks.join(\" \") ++ \"\\n\" ++ conflict ++ \"\\n\" ++ divergent ++ \"\\n\" ++ hidden";

/// What `jj log` reported about the working-copy commit.
pub struct JjInfo {
    pub change_id: String,
    pub bookmarks: String,
    pub conflicted: bool,
    pub divergent: bool,
    pub hidden: bool,
}

/// Mathematical value of a [`JjInfo`].
pub struct JjInfoModel {
    pub change_id: Seq<char>,
    pub bookmarks: Seq<char>,
    pub conflicted: bool,
    pub divergent: bool,
    pub hidden: bool,
}

impl View for JjInfo {
    type V = JjInfoModel;

    open spec fn view(&self) -> JjInfoModel {
        JjInfoModel {
            change_id: self.change_id@,
            bookmarks: self.bookmarks@,
            conflicted: self.conflicted,
            divergent: self.divergent,
            hidden: self.hidden,
        }
    }
}

/// Whether a boolean field of the output reads as set: only the text
/// `true` does; any other text, or a missing line, does not.
pub open spec fn spec_parse_jj_bool(value: Option<Seq<char>>) -> bool {
    value == Some("true"@)
}

/// Line `i` of `lines`, if there is one.
pub open spec fn line_at(lines: Seq<Seq<char>>, i: int) -> Option<Seq<char>> {
    if 0 <= i < lines.len() {
        Some(lines[i])
    } else {
        None
    }
}

/// What the output of `jj log` with [`JJ_TEMPLATE`] says: nothing when its
/// first line, the change id, is missing or empty; otherwise the change
/// id, the second line as the bookmarks (empty where it is missing), and
/// the next three lines read as booleans.
pub open spec fn spec_jj_info(output: Seq<char>) -> Option<JjInfoModel> {
    let lines = lines::text_lines(output);
    if lines.len() == 0 || lines[0].len() == 0 {
        None
    } else {
        Some(
            JjInfoModel {
                change_id: lines[0],
                bookmarks: if lines.len() > 1 {
                    lines[1]
                } else {
                    Seq::empty()
                },
                conflicted: spec_parse_jj_bool(line_at(lines, 2)),
                divergent: spec_parse_jj_bool(line_at(lines, 3)),
                hidden: spec_parse_jj_bool(line_at(lines, 4)),
            },
        )
    }
}

/// Whether two strings hold the same characters.
fn str_eq(a: &str, b: &str) -> (r: bool)
    ensures
        r == (a@ == b@),
{
    let n = a.unicode_len();
    let m = b.unicode_len();
    if n != m {
        return false;
    }
    let mut i: usize = 0;
    while i < n
        invariant
            n == a@.len(),
            n == b@.len(),
            i <= n,
            forall|j: int| 0 <= j < i ==> a@[j] == b@[j],
        decreases n - i,
    {
        if a.get_char(i) != b.get_char(i) {
            return false;
        }
        i = i + 1;
    }
    assert(a@ =~= b@);
    true
}

/// Reads a boolean field of the output of `jj log`: `true` is set, and
/// anything else, `false`, another text or no line at all, is not.
pub fn parse_jj_bool(value: Option<&str>, _field_name: &str) -> (b: bool)
    ensures
        b == spec_parse_jj_bool(
            match value {
                Some(v) => Some(v@),
                None => None,
            },
        ),
        b <==> (value matches Some(v) && v@ == "true"@),
{
    match value {
        Some(v) => str_eq(v, "true"),
        None => false,
    }
}

/// Reads what `jj log` with [`JJ_TEMPLATE`] printed. Gives nothing when
/// the change id is missing or empty.
pub fn get_jj_info(output: &str) -> (r: Option<JjInfo>)
    ensures
        match r {
            Some(info) => spec_jj_info(output@) == Some(info@),
            None => spec_jj_info(output@).is_none(),
        },
{
    let lines = split_lines(output);
    let ghost lv = lines@.map_values(|l: &str| l@);
    assert(lv == lines::text_lines(output@));
    if lines.len() == 0 {
        return None;
    }
    let first = lines[0];
    if first.unicode_len() == 0 {
        return None;
    }
    let change_id = first.to_owned();
    let bookmarks = if lines.len() > 1 {
        lines[1].to_owned()
    } else {
        String::new()
    };
    let conflicted = parse_jj_bool(if lines.len() > 2 { Some(lines[2]) } else { None }, "conflict");
    let divergent = parse_jj_bool(if lines.len() > 3 { Some(lines[3]) } else { None }, "divergent");
    let hidden = parse_jj_bool(if lines.len() > 4 { Some(lines[4]) } else { None }, "hidden");
    let info = JjInfo { change_id, bookmarks, conflicted, divergent, hidden };
    assert(info@ == spec_jj_info(output@).unwrap());
    Some(info)
}


/// The arguments that `jj` runs with: `log --no-graph -r @`, then
/// `--ignore-working-copy` where the configuration asks for it, then
/// `-T` and the template.
pub open spec fn spec_jj_log_args(ignore_working_copy: bool) -> Seq<Seq<char>> {
    seq!["log"@, "--no-graph"@, "-r"@, "@"@] + (if ignore_working_copy {
        seq!["--ignore-working-copy"@]
    } else {
        Seq::empty()
    }) + seq!["-T"@, JJ_TEMPLATE@]
}

/// Builds the arguments of the `jj` command that reports the status.
pub fn jj_log_args(config: &JjStatusConfig) -> (args: Vec<&'static str>)
    ensures
        args@.map_values(|a: &'static str| a@) == spec_jj_log_args(config.ignore_working_copy),
        args@.len() == if config.ignore_working_copy {
            7int
        } else {
            6int
        },
        args@[0]@ == "log"@,
        args@[1]@ == "--no-graph"@,
        args@[2]@ == "-r"@,
        args@[3]@ == "@"@,
        config.ignore_working_copy ==> args@[4]@ == "--ignore-working-copy"@,
        args@[args@.len() - 2]@ == "-T"@,
        args@[args@.len() - 1]@ == JJ_TEMPLATE@,
{
    let mut args: Vec<&'static str> = Vec::new();
    args.push("log");
    args.push("--no-graph");
    args.push("-r");
    args.push("@");
    if config.ignore_working_copy {
        args.push("--ignore-working-copy");
    }
    args.push("-T");
    args.push(JJ_TEMPLATE);
    assert(args@.map_values(|a: &'static str| a@) =~= spec_jj_log_args(config.ignore_working_copy));
    args
}

/// How many grapheme clusters of the change id are kept: the configured
/// length where it is positive, and all of them otherwise.
pub open spec fn spec_truncation_len(truncation_length: i64) -> usize {
    if truncation_length <= 0 {
        usize::MAX
    } else {
        truncation_length as usize
    }
}

/// How many grapheme clusters of the change id are kept.
pub fn truncation_len(truncation_length: i64) -> (len: usize)
    ensures
        len == spec_truncation_len(truncation_length),
        truncation_length <= 0 ==> len == usize::MAX,
        truncation_length > 0 ==> len == truncation_length as usize,
{
    if truncation_length <= 0 {
        usize::MAX
    } else {
        truncation_length as usize
    }
}

/// The values that the segment shows, for the format string to place.
pub struct JjStatus {
    /// The configured symbol.
    pub symbol: String,
    /// The configured style.
    pub style: String,
    /// The configured format string.
    pub format: String,
    /// The change id, cut short as configured.
    pub change_id: String,
    /// The bookmarks, absent where there are none.
    pub bookmarks: Option<String>,
    /// The conflict marker, present where the commit is conflicted.
    pub conflicted: Option<String>,
    /// The divergence marker, present where the change is divergent.
    pub divergent: Option<String>,
    /// The hidden marker, present where the commit is hidden.
    pub hidden: Option<String>,
}

/// Mathematical value of a [`JjStatus`].
pub struct JjStatusModel {
    pub symbol: Seq<char>,
    pub style: Seq<char>,
    pub format: Seq<char>,
    pub change_id: Seq<char>,
    pub bookmarks: Option<Seq<char>>,
    pub conflicted: Option<Seq<char>>,
    pub divergent: Option<Seq<char>>,
    pub hidden: Option<Seq<char>>,
}

impl View for JjStatus {
    type V = JjStatusModel;

    open spec fn view(&self) -> JjStatusModel {
        JjStatusModel {
            symbol: self.symbol@,
            style: self.style@,
            format: self.format@,
            change_id: self.change_id@,
            bookmarks: self.bookmarks.deep_view(),
            conflicted: self.conflicted.deep_view(),
            divergent: self.divergent.deep_view(),
            hidden: self.hidden.deep_view(),
        }
    }
}

/// `text` where `flag` is set, nothing otherwise.
pub open spec fn shown_if(flag: bool, text: Seq<char>) -> Option<Seq<char>> {
    if flag {
        Some(text)
    } else {
        None
    }
}

/// The values shown for what `jj` reported under `config`.
pub open spec fn spec_jj_status(config: JjStatusConfig, info: JjInfoModel) -> JjStatusModel {
    JjStatusModel {
        symbol: config.symbol@,
        style: config.style@,
        format: config.format@,
        change_id: truncate::spec_truncate_text(
            info.change_id,
            spec_truncation_len(config.truncation_length) as nat,
            config.truncation_symbol@,
        ),
        bookmarks: shown_if(info.bookmarks.len() > 0, info.bookmarks),
        conflicted: shown_if(info.conflicted, config.conflicted@),
        divergent: shown_if(info.divergent, config.divergent@),
        hidden: shown_if(info.hidden, config.hidden@),
    }
}

/// `text` as an owned string where `flag` is set.
fn text_if(flag: bool, text: &str) -> (r: Option<String>)
    ensures
        r.deep_view() == shown_if(flag, text@),
{
    if flag {
        Some(text.to_owned())
    } else {
        None
    }
}

/// The values shown for what `jj` reported. Where the configured
/// truncation length is zero or less, or the change id has no more
/// grapheme clusters than it, the change id is shown whole.
pub fn jj_status(config: &JjStatusConfig, info: JjInfo) -> (st: JjStatus)
    ensures
        st@ == spec_jj_status(*config, info@),
        st.symbol@ == config.symbol@,
        st.style@ == config.style@,
        st.format@ == config.format@,
        info.bookmarks@.len() > 0 ==> st.bookmarks.deep_view() == Some(info.bookmarks@),
        info.bookmarks@.len() == 0 ==> st.bookmarks.is_none(),
        info.conflicted ==> st.conflicted.deep_view() == Some(config.conflicted@),
        !info.conflicted ==> st.conflicted.is_none(),
        info.divergent ==> st.divergent.deep_view() == Some(config.divergent@),
        !info.divergent ==> st.divergent.is_none(),
        info.hidden ==> st.hidden.deep_view() == Some(config.hidden@),
        !info.hidden ==> st.hidden.is_none(),
        config.truncation_length > 0 ==> st.change_id@ == truncate::spec_truncate_text(
            info.change_id@,
            config.truncation_length as usize as nat,
            config.truncation_symbol@,
        ),
        config.truncation_length <= 0 ==> st.change_id@ == info.change_id@,
        0 < config.truncation_length <= usize::MAX && config.truncation_length
            < truncate::grapheme_clusters(info.change_id@).len() ==> st.change_id@
            == truncate::concat(
            truncate::grapheme_clusters(info.change_id@).take(config.truncation_length as int),
        ) + truncate::first_cluster(config.truncation_symbol@),
        0 < config.truncation_length <= usize::MAX && config.truncation_length >= truncate::grapheme_clusters(
            info.change_id@,
        ).len() ==> st.change_id@ == info.change_id@,
{
    let len = truncation_len(config.truncation_length);
    let change_id = truncate_text(info.change_id.as_str(), len, config.truncation_symbol);
    let bookmarks = if info.bookmarks.unicode_len() > 0 {
        Some(info.bookmarks)
    } else {
        None
    };
    let st = JjStatus {
        symbol: config.symbol.to_owned(),
        style: config.style.to_owned(),
        format: config.format.to_owned(),
        change_id,
        bookmarks,
        conflicted: text_if(info.conflicted, config.conflicted),
        divergent: text_if(info.divergent, config.divergent),
        hidden: text_if(info.hidden, config.hidden),
    };
    st
}


/// Value of a variable of the format string: `change_id` always has one;
/// `bookmarks`, `conflicted`, `divergent` and `hidden` have one where it
/// is shown; any other name has none.
pub open spec fn spec_variable(st: JjStatusModel, name: Seq<char>) -> Option<Seq<char>> {
    if name == "change_id"@ {
        Some(st.change_id)
    } else if name == "bookmarks"@ {
        st.bookmarks
    } else if name == "conflicted"@ {
        st.conflicted
    } else if name == "divergent"@ {
        st.divergent
    } else if name == "hidden"@ {
        st.hidden
    } else {
        None
    }
}

/// The characters of an optional borrowed text.
pub open spec fn named_text(r: Option<&str>) -> Option<Seq<char>> {
    match r {
        Some(t) => Some(t@),
        None => None,
    }
}

/// The text of an optional string, borrowed.
fn borrow_text(o: &Option<String>) -> (r: Option<&str>)
    ensures
        match r {
            Some(t) => o.deep_view() == Some(t@),
            None => o.is_none(),
        },
{
    match o {
        Some(t) => Some(t.as_str()),
        None => None,
    }
}

impl JjStatus {
    /// Value of the variable `name` of the format string.
    pub fn variable(&self, name: &str) -> (r: Option<&str>)
        ensures
            match r {
                Some(t) => spec_variable(self@, name@) == Some(t@),
                None => spec_variable(self@, name@).is_none(),
            },
            name@ == "change_id"@ ==> (r matches Some(t) && t@ == self.change_id@),
            name@ == "bookmarks"@ ==> named_text(r) == self.bookmarks.deep_view(),
            name@ == "conflicted"@ ==> named_text(r) == self.conflicted.deep_view(),
            name@ == "divergent"@ ==> named_text(r) == self.divergent.deep_view(),
            name@ == "hidden"@ ==> named_text(r) == self.hidden.deep_view(),
            name@ != "change_id"@ && name@ != "bookmarks"@ && name@ != "conflicted"@ && name@
                != "divergent"@ && name@ != "hidden"@ ==> r.is_none(),
    {
        proof {
            reveal_strlit("change_id");
            reveal_strlit("bookmarks");
            reveal_strlit("conflicted");
            reveal_strlit("divergent");
            reveal_strlit("hidden");
            assert("change_id"@.len() == 9 && "change_id"@[0] == 'c');
            assert("bookmarks"@.len() == 9 && "bookmarks"@[0] == 'b');
            assert("conflicted"@.len() == 10);
            assert("divergent"@.len() == 9 && "divergent"@[0] == 'd');
            assert("hidden"@.len() == 6);
        }
        if str_eq(name, "change_id") {
            Some(self.change_id.as_str())
        } else if str_eq(name, "bookmarks") {
            borrow_text(&self.bookmarks)
        } else if str_eq(name, "conflicted") {
            borrow_text(&self.conflicted)
        } else if str_eq(name, "divergent") {
            borrow_text(&self.divergent)
        } else if str_eq(name, "hidden") {
            borrow_text(&self.hidden)
        } else {
            None
        }
    }

    /// Value of the meta variable `name` of the format string: `symbol`
    /// is the configured symbol; no other name has one.
    pub fn meta_variable(&self, name: &str) -> (r: Option<&str>)
        ensures
            match r {
                Some(t) => name@ == "symbol"@ && t@ == self.symbol@,
                None => name@ != "symbol"@,
            },
    {
        if str_eq(name, "symbol") {
            Some(self.symbol.as_str())
        } else {
            None
        }
    }

    /// Value of the style variable `name` of the format string: `style`
    /// is the configured style; no other name has one.
    pub fn style_variable(&self, name: &str) -> (r: Option<&str>)
        ensures
            match r {
                Some(t) => name@ == "style"@ && t@ == self.style@,
                None => name@ != "style"@,
            },
    {
        if str_eq(name, "style") {
            Some(self.style.as_str())
        } else {
            None
        }
    }
}

/// What came back from the last outside step.
pub enum JjEvent<'o> {
    /// Nothing has been done yet.
    Start,
    /// Whether a Jujutsu repository was found at the current directory.
    RepoFound(bool),
    /// What the `jj` command printed, or nothing where it could not run.
    JjOutput(Option<&'o str>),
    /// The segment that the format string gave with the values placed in
    /// it, or nothing where the format string could not be parsed.
    Rendered(Option<&'o str>),
}

/// What to do next.
pub enum JjAction {
    /// Look for a Jujutsu repository at the current directory.
    DiscoverRepo,
    /// Run `jj` with these arguments.
    RunJj(Vec<&'static str>),
    /// Place these values into the configured format string.
    Render(JjStatus),
    /// Stop: show this segment, or no segment at all.
    Done(Option<String>),
}

/// Mathematical value of a [`JjAction`].
pub enum JjActionModel {
    DiscoverRepo,
    RunJj(Seq<Seq<char>>),
    Render(JjStatusModel),
    Done(Option<Seq<char>>),
}

impl View for JjAction {
    type V = JjActionModel;

    open spec fn view(&self) -> JjActionModel {
        match self {
            JjAction::DiscoverRepo => JjActionModel::DiscoverRepo,
            JjAction::RunJj(args) => JjActionModel::RunJj(args@.map_values(|a: &'static str| a@)),
            JjAction::Render(st) => JjActionModel::Render(st@),
            JjAction::Done(seg) => JjActionModel::Done(seg.deep_view()),
        }
    }
}

/// The next step of the segment under `config` after `event`. A disabled
/// segment shows nothing. Otherwise the segment first asks for the
/// repository, shows nothing where there is none, then asks for `jj` to
/// run, shows nothing where it could not run or printed no change id,
/// asks for the values read from its output to be placed into the format
/// string, and shows what that gave, or nothing where the format string
/// could not be parsed.
pub open spec fn spec_module(config: JjStatusConfig, event: JjEvent) -> JjActionModel {
    if config.disabled {
        JjActionModel::Done(None)
    } else {
        match event {
            JjEvent::Start => JjActionModel::DiscoverRepo,
            JjEvent::RepoFound(found) => if found {
                JjActionModel::RunJj(spec_jj_log_args(config.ignore_working_copy))
            } else {
                JjActionModel::Done(None)
            },
            JjEvent::JjOutput(None) => JjActionModel::Done(None),
            JjEvent::JjOutput(Some(out)) => match spec_jj_info(out@) {
                Some(info) => JjActionModel::Render(spec_jj_status(config, info)),
                None => JjActionModel::Done(None),
            },
            JjEvent::Rendered(None) => JjActionModel::Done(None),
            JjEvent::Rendered(Some(seg)) => JjActionModel::Done(Some(seg@)),
        }
    }
}

/// Decides the next step of the Jujutsu status segment. Where the output
/// of `jj` is to be shown and the truncation length is zero or less, the
/// change id is shown whole.
pub fn module(config: &JjStatusConfig, event: JjEvent) -> (action: JjAction)
    ensures
        action@ == spec_module(*config, event),
        config.truncation_length <= 0 ==> (event matches JjEvent::JjOutput(Some(out)) ==> (
        action matches JjAction::Render(st) ==> st.change_id@ == spec_jj_info(
            out@,
        ).unwrap().change_id)),
{
    if config.disabled {
        return JjAction::Done(None);
    }
    match event {
        JjEvent::Start => JjAction::DiscoverRepo,
        JjEvent::RepoFound(found) => {
            if found {
                JjAction::RunJj(jj_log_args(config))
            } else {
                JjAction::Done(None)
            }
        },
        JjEvent::JjOutput(None) => JjAction::Done(None),
        JjEvent::JjOutput(Some(out)) => match get_jj_info(out) {
            Some(info) => JjAction::Render(jj_status(config, info)),
            None => JjAction::Done(None),
        },
        JjEvent::Rendered(None) => JjAction::Done(None),
        JjEvent::Rendered(Some(seg)) => JjAction::Done(Some(seg.to_owned())),
    }
}

/// A disabled segment shows nothing, whatever happened.
pub proof fn lemma_disabled_shows_nothing(config: JjStatusConfig, event: JjEvent)
    requires
        config.disabled,
    ensures
        spec_module(config, event) == JjActionModel::Done(None),
{
}

/// Values are placed into the format string only for an enabled segment
/// and only from what `jj` printed; a segment is shown only for an enabled
/// segment and only as the format string gave it, never on a failed parse.
pub proof fn lemma_shown_only_from_output(config: JjStatusConfig, event: JjEvent)
    ensures
        spec_module(config, event) matches JjActionModel::Render(st) ==> {
            &&& !config.disabled
            &&& event matches JjEvent::JjOutput(Some(out))
            &&& spec_jj_info(out@) matches Some(info)
            &&& st == spec_jj_status(config, info)
        },
        spec_module(config, event) matches JjActionModel::Done(Some(seg)) ==> {
            &&& !config.disabled
            &&& event matches JjEvent::Rendered(Some(r))
            &&& seg == r@
        },
        event matches JjEvent::Rendered(None) ==> spec_module(config, event)
            == JjActionModel::Done(None),
{
}

/// How a boolean is printed through the template.
pub open spec fn bool_text(b: bool) -> Seq<char> {
    if b {
        "true"@
    } else {
        "false"@
    }
}

/// What `jj log` prints through [`JJ_TEMPLATE`]: the change id, the
/// bookmarks and the three flags, one per line.
pub open spec fn template_output(
    change_id: Seq<char>,
    bookmarks: Seq<char>,
    conflicted: bool,
    divergent: bool,
    hidden: bool,
) -> Seq<char> {
    change_id + seq!['\n'] + bookmarks + seq!['\n'] + bool_text(conflicted) + seq!['\n']
        + bool_text(divergent) + seq!['\n'] + bool_text(hidden)
}

/// A printed boolean has no `\n`, does not end in `\r`, and reads back as
/// the boolean.
proof fn lemma_bool_text(b: bool)
    ensures
        bool_text(b).len() > 0,
        forall|i: int| 0 <= i < bool_text(b).len() ==> bool_text(b)[i] != '\n',
        lines::strip_cr(bool_text(b)) == bool_text(b),
        spec_parse_jj_bool(Some(bool_text(b))) == b,
{
    reveal_strlit("true");
    reveal_strlit("false");
}

/// What `jj log` prints through [`JJ_TEMPLATE`] reads back as what it
/// printed, for a change id that is not empty and, like the bookmarks,
/// holds no line break (no `\n`, and no `\r` at its end).
pub proof fn lemma_template_output_read_back(
    change_id: Seq<char>,
    bookmarks: Seq<char>,
    conflicted: bool,
    divergent: bool,
    hidden: bool,
)
    requires
        change_id.len() > 0,
        forall|i: int| 0 <= i < change_id.len() ==> change_id[i] != '\n',
        forall|i: int| 0 <= i < bookmarks.len() ==> bookmarks[i] != '\n',
        change_id.last() != '\r',
        bookmarks.len() > 0 ==> bookmarks.last() != '\r',
    ensures
        spec_jj_info(template_output(change_id, bookmarks, conflicted, divergent, hidden)) == Some(
            JjInfoModel { change_id, bookmarks, conflicted, divergent, hidden },
        ),
{
    assert(lines::strip_cr(change_id) == change_id) by {
        lines::lemma_strip_cr_only_final_cr(change_id.drop_last(), change_id.last());
        assert(change_id.drop_last().push(change_id.last()) =~= change_id);
    }
    assert(lines::strip_cr(bookmarks) == bookmarks) by {
        if bookmarks.len() > 0 {
            lines::lemma_strip_cr_only_final_cr(bookmarks.drop_last(), bookmarks.last());
            assert(bookmarks.drop_last().push(bookmarks.last()) =~= bookmarks);
        }
    }
    lemma_template_lines(change_id, bookmarks, conflicted, divergent, hidden);
}

/// The lines of what the template prints are its five fields.
proof fn lemma_template_lines(
    change_id: Seq<char>,
    bookmarks: Seq<char>,
    conflicted: bool,
    divergent: bool,
    hidden: bool,
)
    requires
        change_id.len() > 0,
        forall|i: int| 0 <= i < change_id.len() ==> change_id[i] != '\n',
        forall|i: int| 0 <= i < bookmarks.len() ==> bookmarks[i] != '\n',
        lines::strip_cr(change_id) == change_id,
        lines::strip_cr(bookmarks) == bookmarks,
    ensures
        spec_jj_info(template_output(change_id, bookmarks, conflicted, divergent, hidden)) == Some(
            JjInfoModel { change_id, bookmarks, conflicted, divergent, hidden },
        ),
{
    let bc = bool_text(conflicted);
    let bd = bool_text(divergent);
    let bh = bool_text(hidden);
    let t2 = bd + seq!['\n'] + bh;
    let t1 = bc + seq!['\n'] + t2;
    let t0 = bookmarks + seq!['\n'] + t1;
    let out = change_id + seq!['\n'] + t0;
    assert(template_output(change_id, bookmarks, conflicted, divergent, hidden) =~= out);
    assert(lines::text_lines(out) == seq![change_id, bookmarks, bc, bd, bh]) by {
        lemma_bool_text(conflicted);
        lemma_bool_text(divergent);
        lemma_bool_text(hidden);
        lines::lemma_lines_single(bh);
        lines::lemma_lines_cons(bd, bh);
        assert(lines::text_lines(t2) =~= seq![bd, bh]);
        lines::lemma_lines_cons(bc, t2);
        assert(lines::text_lines(t1) =~= seq![bc, bd, bh]);
        lines::lemma_lines_cons(bookmarks, t1);
        assert(lines::text_lines(t0) =~= seq![bookmarks, bc, bd, bh]);
        lines::lemma_lines_cons(change_id, t0);
        assert(lines::text_lines(out) =~= seq![change_id, bookmarks, bc, bd, bh]);
    }
    lemma_bool_text(conflicted);
    lemma_bool_text(divergent);
    lemma_bool_text(hidden);
}

/// An enabled segment whose `jj` printed, through [`JJ_TEMPLATE`], a
/// change id and bookmarks without line breaks asks for what was printed
/// to be placed into its format string: the change id (cut as
/// configured), the bookmarks where there are any, and the marker of each
/// flag that is set.
pub proof fn lemma_module_shows_template_output(
    config: JjStatusConfig,
    out: &str,
    change_id: Seq<char>,
    bookmarks: Seq<char>,
    conflicted: bool,
    divergent: bool,
    hidden: bool,
)
    requires
        !config.disabled,
        out@ == template_output(change_id, bookmarks, conflicted, divergent, hidden),
        change_id.len() > 0,
        forall|i: int| 0 <= i < change_id.len() ==> change_id[i] != '\n',
        forall|i: int| 0 <= i < bookmarks.len() ==> bookmarks[i] != '\n',
        change_id.last() != '\r',
        bookmarks.len() > 0 ==> bookmarks.last() != '\r',
    ensures
        spec_module(config, JjEvent::JjOutput(Some(out))) == JjActionModel::Render(
            spec_jj_status(
                config,
                JjInfoModel { change_id, bookmarks, conflicted, divergent, hidden },
            ),
        ),
{
    lemma_template_output_read_back(change_id, bookmarks, conflicted, divergent, hidden);
}

/// A positive truncation length keeps that many clusters (as a `usize`);
/// zero or a negative one keeps them all.
pub proof fn lemma_truncation_len(truncation_length: i64)
    ensures
        truncation_length > 0 ==> spec_truncation_len(truncation_length)
            == truncation_length as usize,
        truncation_length <= 0 ==> spec_truncation_len(truncation_length) == usize::MAX,
{
}

/// The values shown carry the configured symbol, style and format; the
/// bookmarks exactly where there are some; and, for each flag, exactly the
/// configured marker where the flag is set and nothing where it is not.
pub proof fn lemma_status_shows_configured_values(config: JjStatusConfig, info: JjInfoModel)
    ensures
        spec_jj_status(config, info).symbol == config.symbol@,
        spec_jj_status(config, info).style == config.style@,
        spec_jj_status(config, info).format == config.format@,
        info.bookmarks.len() > 0 ==> spec_jj_status(config, info).bookmarks == Some(info.bookmarks),
        info.bookmarks.len() == 0 ==> spec_jj_status(config, info).bookmarks.is_none(),
        info.conflicted ==> spec_jj_status(config, info).conflicted == Some(config.conflicted@),
        !info.conflicted ==> spec_jj_status(config, info).conflicted.is_none(),
        info.divergent ==> spec_jj_status(config, info).divergent == Some(config.divergent@),
        !info.divergent ==> spec_jj_status(config, info).divergent.is_none(),
        info.hidden ==> spec_jj_status(config, info).hidden == Some(config.hidden@),
        !info.hidden ==> spec_jj_status(config, info).hidden.is_none(),
        config.truncation_length <= 0 ==> spec_jj_status(config, info).change_id
            == truncate::spec_truncate_text(info.change_id, usize::MAX as nat, config.truncation_symbol@),
        config.truncation_length > 0 ==> spec_jj_status(config, info).change_id
            == truncate::spec_truncate_text(
            info.change_id,
            config.truncation_length as usize as nat,
            config.truncation_symbol@,
        ),
{
}

/// Each variable of the format string reads the field of its name: the
/// change id always, the bookmarks and the three markers exactly as they
/// are shown; no other name has a value.
pub proof fn lemma_variable_reads_fields(st: JjStatusModel, name: Seq<char>)
    ensures
        name == "change_id"@ ==> spec_variable(st, name) == Some(st.change_id),
        name == "bookmarks"@ ==> spec_variable(st, name) == st.bookmarks,
        name == "conflicted"@ ==> spec_variable(st, name) == st.conflicted,
        name == "divergent"@ ==> spec_variable(st, name) == st.divergent,
        name == "hidden"@ ==> spec_variable(st, name) == st.hidden,
        name != "change_id"@ && name != "bookmarks"@ && name != "conflicted"@ && name
            != "divergent"@ && name != "hidden"@ ==> spec_variable(st, name).is_none(),
{
    reveal_strlit("change_id");
    reveal_strlit("bookmarks");
    reveal_strlit("conflicted");
    reveal_strlit("divergent");
    reveal_strlit("hidden");
    assert("change_id"@.len() == 9 && "change_id"@[0] == 'c');
    assert("bookmarks"@.len() == 9 && "bookmarks"@[0] == 'b');
    assert("conflicted"@.len() == 10);
    assert("divergent"@.len() == 9 && "divergent"@[0] == 'd');
    assert("hidden"@.len() == 6);
}

} // verus!
