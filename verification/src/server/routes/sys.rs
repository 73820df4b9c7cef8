//! What the server can say about the daemon: whether it runs, and on which
//! port its page is served.

use crate::text::{
    chars_of, contains, equals_str, lines, lines_of, occurs_in, parse_unsigned, split_whitespace,
    starts_with, unsigned_of, views, words_of,
};
use vstd::prelude::*;
use vstd::slice::*;

verus! {

/// The daemon counts as running when one of its sentinels is there or its
/// unit is active.
pub open spec fn running(locked: bool, unlock: bool, service_active: bool) -> bool {
    locked || unlock || service_active
}

/// The port that word `at` of a command line gives: the word after `--port`
/// or `-p`, or what follows `--port=`, if that is a port number.
pub open spec fn port_at(words: Seq<Seq<char>>, at: int) -> Option<nat> {
    let flagged = if (words[at] == "--port"@ || words[at] == "-p"@) && at + 1 < words.len() {
        unsigned_of(words[at + 1], 65535)
    } else {
        None
    };
    if flagged is Some {
        flagged
    } else if "--port="@.is_prefix_of(words[at]) {
        unsigned_of(words[at].skip(7), 65535)
    } else {
        None
    }
}

/// The first port that a word of a command line gives, from word `from` on.
pub open spec fn port_from(words: Seq<Seq<char>>, from: int) -> Option<nat>
    decreases words.len() - from,
{
    if from < 0 || from >= words.len() {
        None
    } else if port_at(words, from) is Some {
        port_at(words, from)
    } else {
        port_from(words, from + 1)
    }
}

/// The port that a command line gives.
pub open spec fn port_of(command_line: Seq<char>) -> Option<nat> {
    port_from(words_of(command_line), 0)
}

/// A line of the process list may be the daemon serving its page.
pub open spec fn may_serve(line: Seq<char>) -> bool {
    occurs_in(line, "autoap"@) && (occurs_in(line, "start"@) || occurs_in(line, "web"@))
}

/// The ports that the lines of a process list give, for the lines that may
/// be the daemon, in order.
pub open spec fn ports_in(all: Seq<Seq<char>>) -> Seq<nat>
    decreases all.len(),
{
    if all.len() == 0 {
        Seq::empty()
    } else {
        let rest = ports_in(all.drop_last());
        if may_serve(all.last()) && port_of(all.last()) is Some {
            rest.push(port_of(all.last())->0)
        } else {
            rest
        }
    }
}

/// The port to report: the usual one if it answers, else the first of the
/// candidates that answers, else the usual one.
pub open spec fn chosen_port(usual_answers: bool, candidates: Seq<(u16, bool)>) -> u16
    decreases candidates.len(),
{
    if usual_answers || candidates.len() == 0 {
        8080
    } else if candidates[0].1 {
        candidates[0].0
    } else {
        chosen_port(usual_answers, candidates.drop_first())
    }
}

/// Whether the daemon runs, by its sentinels and its unit.
pub fn autoap_status(locked: bool, unlock: bool, service_active: bool) -> (r: bool)
    ensures
        r == running(locked, unlock, service_active),
{
    locked || unlock || service_active
}

/// The port that a command line gives, if it gives one.
pub fn extract_port_from_command_line(command_line: &str) -> (r: Option<u16>)
    ensures
        match r {
            Some(port) => port_of(command_line@) == Some(port as nat),
            None => port_of(command_line@) is None,
        },
{
    let text = chars_of(command_line);
    let words = split_whitespace(text.as_slice());
    let port_flag = chars_of("--port=");
    let mut i: usize = 0;
    while i < words.len()
        invariant
            i <= words.len(),
            views(words@) == words_of(command_line@),
            port_flag@ == "--port="@,
            port_of(command_line@) == port_from(views(words@), i as int),
        decreases words.len() - i,
    {
        assert(views(words@)[i as int] == words@[i as int]@);
        if (equals_str(words[i], "--port") || equals_str(words[i], "-p")) && i + 1 < words.len() {
            assert(views(words@)[i as int + 1] == words@[i as int + 1]@);
            match parse_unsigned(words[i + 1], 65535) {
                Some(port) => {
                    return Some(port as u16);
                },
                None => {},
            }
        }
        if starts_with(words[i], port_flag.as_slice()) {
            proof {
                reveal_strlit("--port=");
            }
            let value = slice_subrange(words[i], 7, words[i].len());
            assert(value@ =~= words@[i as int]@.skip(7));
            match parse_unsigned(value, 65535) {
                Some(port) => {
                    return Some(port as u16);
                },
                None => {},
            }
        }
        i += 1;
    }
    None
}

/// The ports that a process list gives for the lines that may be the
/// daemon, in the order of the lines.
pub fn detect_autoap_web_server_port(process_list: &str) -> (r: Vec<u16>)
    ensures
        r@.len() == ports_in(lines_of(process_list@)).len(),
        forall|i: int| 0 <= i < r@.len() ==> r@[i] as nat == ports_in(lines_of(process_list@))[i],
{
    let text = chars_of(process_list);
    let all = lines(text.as_slice());
    let daemon = chars_of("autoap");
    let start = chars_of("start");
    let web = chars_of("web");
    let mut out: Vec<u16> = Vec::new();
    let mut i: usize = 0;
    assert(views(all@).take(0) =~= Seq::<Seq<char>>::empty());
    while i < all.len()
        invariant
            i <= all.len(),
            views(all@) == lines_of(process_list@),
            daemon@ == "autoap"@,
            start@ == "start"@,
            web@ == "web"@,
            out@.len() == ports_in(views(all@).take(i as int)).len(),
            forall|j: int|
                0 <= j < out@.len() ==> out@[j] as nat == ports_in(views(all@).take(i as int))[j],
        decreases all.len() - i,
    {
        assert(views(all@).take(i as int + 1).drop_last() =~= views(all@).take(i as int));
        assert(views(all@).take(i as int + 1).last() == all@[i as int]@);
        let line = all[i];
        if contains(line, daemon.as_slice()) && (contains(line, start.as_slice()) || contains(
            line,
            web.as_slice(),
        )) {
            let owned = crate::text::string_of(line);
            match extract_port_from_command_line(owned.as_str()) {
                Some(port) => {
                    out.push(port);
                },
                None => {},
            }
        }
        i += 1;
    }
    assert(views(all@).take(all.len() as int) =~= views(all@));
    out
}

/// The port to report, given whether the usual port answers and, for each
/// candidate, whether it answers.
pub fn test_port_connectivity(usual_answers: bool, candidates: &Vec<(u16, bool)>) -> (r: u16)
    ensures
        r == chosen_port(usual_answers, candidates@),
{
    if usual_answers {
        return 8080;
    }
    let mut i: usize = 0;
    assert(candidates@.skip(0) =~= candidates@);
    while i < candidates.len()
        invariant
            i <= candidates.len(),
            !usual_answers,
            chosen_port(usual_answers, candidates@) == chosen_port(
                usual_answers,
                candidates@.skip(i as int),
            ),
        decreases candidates.len() - i,
    {
        assert(candidates@.skip(i as int)[0] == candidates@[i as int]);
        if candidates[i].1 {
            return candidates[i].0;
        }
        assert(candidates@.skip(i as int).drop_first() =~= candidates@.skip(i as int + 1));
        i += 1;
    }
    8080
}

} // verus!
