//! Names, the wrapper's command line, and who owns which window.

use crate::command;
use crate::command::{Output, Reply, StepView};
use crate::number;
use crate::shell;
use crate::startup;
use crate::startup::{ModeView, StartError};
use crate::text;
use crate::tmux;
use crate::tmux::SessionView;
use vstd::prelude::*;
use vstd::string::*;
use vstd::utf8::*;

verus! {

/// What follows the same text twice is the same.
proof fn lemma_tail(head: Seq<char>, a: Seq<char>, b: Seq<char>)
    requires
        head + a == head + b,
    ensures
        a == b,
{
    assert((head + a).skip(head.len() as int) == a);
    assert((head + b).skip(head.len() as int) == b);
}

/// Different processes have different windows, targets and status files.
pub proof fn law_names_differ(session: SessionView, a: Seq<char>, b: Seq<char>)
    requires
        a != b,
    ensures
        session.window_name(a) != session.window_name(b),
        session.window_id(a) != session.window_id(b),
        session.status_file(a) != session.status_file(b),
{
    if session.window_name(a) == session.window_name(b) {
        lemma_tail(session.prefix, a, b);
    }
    if session.window_id(a) == session.window_id(b) {
        lemma_tail(
            session.session_name + ":"@,
            session.window_name(a),
            session.window_name(b),
        );
    }
    if session.status_file(a) == session.status_file(b) {
        lemma_tail("/tmp/tmprocs_"@ + session.prefix, a, b);
    }
}

/// A window of one instance does not carry the prefix of another: the
/// instances that share a session do not touch each other's windows.
pub proof fn law_instances_apart(mine: u32, theirs: u32, name: Seq<char>)
    requires
        mine != theirs,
    ensures
        !tmux::instance_prefix(mine).is_prefix_of(tmux::instance_prefix(theirs) + name),
{
    let a = number::decimal(mine as nat);
    let b = number::decimal(theirs as nat);
    let p = tmux::instance_prefix(mine);
    let w = tmux::instance_prefix(theirs) + name;
    if p.is_prefix_of(w) {
        reveal_strlit("_tp");
        reveal_strlit("_");
        number::law_decimal_value(mine as nat);
        number::law_decimal_value(theirs as nat);
        assert(w.take(p.len() as int) == p);
        assert forall|i: int| 0 <= i < a.len() implies p[i + 3] == a[i] by {}
        assert forall|i: int| 0 <= i < b.len() implies w[i + 3] == b[i] by {}
        assert(p[(a.len() + 3) as int] == '_');
        assert(w[(b.len() + 3) as int] == '_');
        if a.len() < b.len() {
            assert(w.take(p.len() as int)[(a.len() + 3) as int] == '_');
            assert(b[a.len() as int] == '_');
            assert(number::is_digit(b[a.len() as int]));
        } else if b.len() < a.len() {
            assert(w.take(p.len() as int)[(b.len() + 3) as int] == '_');
            assert(a[b.len() as int] == '_');
            assert(number::is_digit(a[b.len() as int]));
        } else {
            assert forall|i: int| 0 <= i < a.len() implies a[i] == b[i] by {
                assert(w.take(p.len() as int)[i + 3] == p[i + 3]);
            }
            assert(a == b);
            number::law_decimal_injective(mine as nat, theirs as nat);
        }
    }
}

/// What an instance owns of a listing is what it could have started: the
/// listed windows with its prefix, its own processes' windows among them.
pub proof fn law_owned_windows(session: SessionView, listing: Seq<char>, window: Seq<char>)
    ensures
        session.owned_windows(listing).contains(window) <==> text::lines_of(listing).contains(
            window,
        ) && session.prefix.is_prefix_of(window),
        forall|name: Seq<char>|
            session.prefix.is_prefix_of(#[trigger] session.window_name(name)),
{
    let owned = |w: Seq<char>| session.prefix.is_prefix_of(w);
    let lines = text::lines_of(listing);
    if session.owned_windows(listing).contains(window) {
        lines.lemma_filter_contains_rev(owned, window);
        let i = choose|i: int| 0 <= i < lines.filter(owned).len() && lines.filter(owned)[i] == window;
        lines.lemma_filter_pred(owned, i);
    }
    if lines.contains(window) && session.prefix.is_prefix_of(window) {
        let i = choose|i: int| 0 <= i < lines.len() && lines[i] == window;
        lines.lemma_filter_contains(owned, i);
    }
    assert forall|name: Seq<char>| session.prefix.is_prefix_of(
        #[trigger] session.window_name(name),
    ) by {
        assert((session.prefix + name).take(session.prefix.len() as int) == session.prefix);
    }
}

/// The cleanup kills every owned window of the listing, one after the other,
/// whatever comes of each, and then it is done.
pub proof fn law_cleanup_kills_each(session: SessionView, replies: Seq<Reply>, out: Output)
    requires
        replies.len() > 0,
        replies[0] == Reply::Exited(out),
        out.success,
        valid_utf8(out.stdout@),
    ensures
        ({
            let windows = session.owned_windows(decode_utf8(out.stdout@));
            &&& replies.len() <= windows.len() ==> session.cleanup_step(replies) == StepView::<
                (),
            >::Ask(
                command::tmux_request(
                    seq![
                        "kill-window"@,
                        "-t"@,
                        session.session_name + ":"@ + windows[replies.len() - 1],
                    ],
                    false,
                ),
            )
            &&& replies.len() > windows.len() ==> session.cleanup_step(replies) == StepView::<
                (),
            >::Done(Ok(()))
        }),
{
}

/// A text that a shell takes as it is, is one word.
pub proof fn law_literal_is_one_word(s: Seq<char>)
    requires
        s.len() > 0,
        forall|i: int| 0 <= i < s.len() ==> plain(#[trigger] s[i]),
    ensures
        shell::shell_words(s) == Some(seq![s]),
{
    assert(shell::read_words(s, None, false) == shell::read_words(
        s.skip(1),
        Some(Seq::<char>::empty().push(s[0])),
        false,
    ));
    assert(Seq::<char>::empty().push(s[0]) + s.skip(1) == s);
    lemma_plain_run(s.skip(1), Seq::<char>::empty().push(s[0]));
}

/// Characters that a shell takes as they are, wherever they stand.
pub open spec fn plain(c: char) -> bool {
    &&& !shell::is_operator(c)
    &&& !shell::is_blank(c)
    &&& c != '\'' && c != '\\' && c != '#' && c != '~' && c != '='
}

/// Plain characters go on with a word.
proof fn lemma_plain_run(s: Seq<char>, word: Seq<char>)
    requires
        forall|i: int| 0 <= i < s.len() ==> plain(#[trigger] s[i]),
    ensures
        shell::read_words(s, Some(word), false) == Some(seq![word + s]),
    decreases s.len(),
{
    if s.len() == 0 {
        assert(word + s == word);
    } else {
        assert(plain(s[0]));
        assert forall|i: int| 0 <= i < s.skip(1).len() implies plain(#[trigger] s.skip(1)[i]) by {
            assert(s.skip(1)[i] == s[i + 1]);
        }
        lemma_plain_run(s.skip(1), word.push(s[0]));
        assert(word.push(s[0]) + s.skip(1) == word + s);
    }
}

/// The status file of a process with a plain name is one word for a shell.
pub proof fn law_status_file_is_one_word(session: SessionView, pid: u32, name: Seq<char>)
    requires
        session.prefix == tmux::instance_prefix(pid),
        forall|i: int| 0 <= i < name.len() ==> plain(#[trigger] name[i]),
    ensures
        shell::shell_words(session.status_file(name)) == Some(seq![session.status_file(name)]),
{
    let s = session.status_file(name);
    let digits = number::decimal(pid as nat);
    reveal_strlit("/tmp/tmprocs_");
    reveal_strlit("_tp");
    reveal_strlit("_");
    number::law_decimal_value(pid as nat);
    let head = "/tmp/tmprocs_"@ + "_tp"@;
    assert(s == head + digits + "_"@ + name);
    assert forall|i: int| 0 <= i < s.len() implies plain(#[trigger] s[i]) by {
        if i < head.len() {
            assert(s[i] == head[i]);
        } else if i < head.len() + digits.len() {
            assert(s[i] == digits[i - head.len()]);
            assert(number::is_digit(digits[i - head.len()]));
        } else if i == head.len() + digits.len() {
            assert(s[i] == '_');
        } else {
            assert(s[i] == name[i - head.len() - digits.len() - 1]);
        }
    }
    law_literal_is_one_word(s);
}

/// What a shell reads of the wrapper's command line, where it takes the paths as
/// they are, asks this program to wrap the very command, whatever that is,
/// with the process's status file.
pub proof fn law_wrapper_line_reads_back(
    session: SessionView,
    program: Seq<char>,
    name: Seq<char>,
    shell_cmd: Seq<char>,
)
    requires
        shell::shell_words(program) == Some(seq![program]),
        shell::shell_words(session.status_file(name)) == Some(seq![session.status_file(name)]),
    ensures
        shell::shell_words(session.wrapper_line(program, name, shell_cmd)) == Some(
            seq![program, "wrap"@, session.status_file(name), shell_cmd],
        ),
        startup::asked_mode(
            shell::shell_words(session.wrapper_line(program, name, shell_cmd))->0,
        ) == Ok::<ModeView, StartError>(
            ModeView::Wrap { status_file: session.status_file(name), shell_cmd },
        ),
{
    let file = session.status_file(name);
    let blank = seq![' '];
    reveal_strlit("wrap");
    reveal_strlit(" wrap ");
    reveal_strlit(" ");
    assert(" wrap "@ == blank + "wrap"@ + blank);
    assert(" "@ == blank);
    law_literal_is_one_word("wrap"@);
    shell::law_quoted_reads_back(shell_cmd);
    let tail = file + blank + shell::quoted(shell_cmd);
    shell::law_words_concatenate(file, shell::quoted(shell_cmd));
    assert(seq![file] + seq![shell_cmd] == seq![file, shell_cmd]);
    shell::law_words_concatenate("wrap"@, tail);
    assert(seq!["wrap"@] + seq![file, shell_cmd] == seq!["wrap"@, file, shell_cmd]);
    shell::law_words_concatenate(program, "wrap"@ + blank + tail);
    assert(seq![program] + seq!["wrap"@, file, shell_cmd] == seq![
        program,
        "wrap"@,
        file,
        shell_cmd,
    ]);
    assert(session.wrapper_line(program, name, shell_cmd) == program + blank + ("wrap"@ + blank
        + tail));
}

} // verus!
