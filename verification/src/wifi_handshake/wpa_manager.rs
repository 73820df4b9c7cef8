//! The configuration of the supplicant: putting a client network into it.
//!
//! The blocks that describe networks are found by a regular expression, and
//! so is the name within a block. What those expressions match is not
//! reasoned about here; what is done with the matches is.

use crate::text::{
    char_index, chars_before, chars_of, equal, push_chars, push_str, remove_char, string_of,
    without,
};
use crate::wifi_handshake::pattern::{
    capture_span, compiles, find_capture, find_spans, match_spans, span_view, spans_view,
};
use vstd::prelude::*;
use vstd::slice::*;

verus! {

/// Keeps the configuration file of the supplicant.
pub struct WpaSupplicantManager {
    pub config_path: String,
}

/// The pattern that a configuration cannot be read without was refused.
#[derive(Debug, Clone, Copy, PartialEq, Eq, Structural)]
pub enum ManagerError {
    /// The pattern of a network block.
    NetworkPattern,
    /// The pattern of the name in a network block.
    SsidPattern,
}

impl WpaSupplicantManager {
    /// The pattern of a block that describes a network and names it.
    pub open spec fn network_pattern() -> Seq<char> {
        r"(?s)network=\{[^}]*ssid=['\x22]?([^'\x22\s}]+)['\x22]?[^}]*\}"@
    }

    /// The pattern of the name of a network; its first group is the name.
    pub open spec fn ssid_pattern() -> Seq<char> {
        r"ssid=['\x22]?([^'\x22\s}]+)['\x22]?"@
    }

    /// The block that describes a client network.
    pub open spec fn client_block(ssid: Seq<char>, password: Seq<char>) -> Seq<char> {
        "network={\n    ssid=\""@ + ssid + "\"\n    psk=\""@ + password
            + "\"\n    key_mgmt=WPA-PSK\n}\n"@
    }

    /// What lies in `text` between two byte offsets; nothing, if the second
    /// comes before the first.
    pub open spec fn slice(text: Seq<char>, span: (int, int)) -> Seq<char> {
        if chars_before(text, span.0) <= chars_before(text, span.1) {
            text.subrange(chars_before(text, span.0) as int, chars_before(text, span.1) as int)
        } else {
            Seq::empty()
        }
    }

    /// The span lies in `text` at or after `from`, counted in characters.
    pub open spec fn in_order(text: Seq<char>, span: (int, int), from: int) -> bool {
        from <= chars_before(text, span.0) <= chars_before(text, span.1) <= text.len()
    }

    /// Whether a block names the network `target`: the name is what the
    /// first group of the name's pattern holds.
    pub open spec fn names(block: Seq<char>, target: Seq<char>) -> bool {
        match capture_span(WpaSupplicantManager::ssid_pattern(), block, 1) {
            Some(span) => chars_before(block, span.0) <= chars_before(block, span.1)
                <= block.len() && WpaSupplicantManager::slice(block, span) == target,
            None => false,
        }
    }

    /// The text in which every block of `spans` that `hits` marks is
    /// replaced by `block`, from character `from` on. The blocks are taken
    /// in order, and a span that does not lie after the one before it is
    /// passed over.
    pub open spec fn spliced(
        text: Seq<char>,
        spans: Seq<(int, int)>,
        hits: Seq<bool>,
        block: Seq<char>,
        from: int,
    ) -> Seq<char>
        decreases spans.len(),
    {
        if spans.len() == 0 {
            text.subrange(from, text.len() as int)
        } else if WpaSupplicantManager::in_order(text, spans[0], from) {
            let start = chars_before(text, spans[0].0) as int;
            let end = chars_before(text, spans[0].1) as int;
            (if hits[0] {
                text.subrange(from, start) + block
            } else {
                text.subrange(from, end)
            }) + WpaSupplicantManager::spliced(
                text,
                spans.drop_first(),
                hits.drop_first(),
                block,
                end,
            )
        } else {
            WpaSupplicantManager::spliced(text, spans.drop_first(), hits.drop_first(), block, from)
        }
    }

    /// Whether a block of `spans` was replaced.
    pub open spec fn replaced(
        text: Seq<char>,
        spans: Seq<(int, int)>,
        hits: Seq<bool>,
        from: int,
    ) -> bool
        decreases spans.len(),
    {
        if spans.len() == 0 {
            false
        } else if WpaSupplicantManager::in_order(text, spans[0], from) {
            hits[0] || WpaSupplicantManager::replaced(
                text,
                spans.drop_first(),
                hits.drop_first(),
                chars_before(text, spans[0].1) as int,
            )
        } else {
            WpaSupplicantManager::replaced(text, spans.drop_first(), hits.drop_first(), from)
        }
    }

    /// The configuration with the network in it: in place of the blocks
    /// that `hits` marks, or, if none was replaced, as a new block at the
    /// end, after an empty line.
    pub open spec fn updated(
        text: Seq<char>,
        spans: Seq<(int, int)>,
        hits: Seq<bool>,
        block: Seq<char>,
    ) -> Seq<char> {
        let body = WpaSupplicantManager::spliced(text, spans, hits, block, 0);
        if WpaSupplicantManager::replaced(text, spans, hits, 0) {
            body
        } else if body.len() > 0 && body.last() == '\n' {
            body + seq!['\n'] + block
        } else {
            body + seq!['\n', '\n'] + block
        }
    }

    /// For each span of `spans`, whether the block there names `target`.
    pub open spec fn hits_of(text: Seq<char>, spans: Seq<(int, int)>, target: Seq<char>) -> Seq<
        bool,
    > {
        Seq::new(
            spans.len(),
            |i: int| WpaSupplicantManager::names(WpaSupplicantManager::slice(text, spans[i]), target),
        )
    }

    /// Where the blocks that describe networks lie in `content`.
    pub open spec fn blocks(content: Seq<char>) -> Seq<(int, int)> {
        match_spans(WpaSupplicantManager::network_pattern(), content)
    }

    /// The configuration `content` with the network in it, given that the
    /// patterns are accepted.
    pub open spec fn with_network(content: Seq<char>, ssid: Seq<char>, password: Seq<char>) -> Seq<
        char,
    > {
        let spans = WpaSupplicantManager::blocks(content);
        let target = without(ssid, '"');
        WpaSupplicantManager::updated(
            content,
            spans,
            WpaSupplicantManager::hits_of(content, spans, target),
            WpaSupplicantManager::client_block(target, without(password, '"')),
        )
    }

    /// The spans of a list of marked spans.
    pub open spec fn spans_of(marked: Seq<(usize, usize, bool)>) -> Seq<(int, int)> {
        Seq::new(marked.len(), |i: int| (marked[i].0 as int, marked[i].1 as int))
    }

    /// The marks of a list of marked spans.
    pub open spec fn marks_of(marked: Seq<(usize, usize, bool)>) -> Seq<bool> {
        Seq::new(marked.len(), |i: int| marked[i].2)
    }

    /// The manager of the configuration at its usual place.
    pub fn new() -> (r: Self)
        ensures
            r.config_path@ == "/etc/wpa_supplicant/wpa_supplicant-wlan0.conf"@,
    {
        Self { config_path: "/etc/wpa_supplicant/wpa_supplicant-wlan0.conf".to_owned() }
    }

    /// The manager of the configuration at `path`.
    pub fn with_config_path(path: String) -> (r: Self)
        ensures
            r.config_path == path,
    {
        Self { config_path: path }
    }

    /// The configuration `content` with the network in it. Quotation marks
    /// are taken out of the name and the password. The only error is a
    /// pattern that is refused; the pattern of the name is asked for only
    /// when the configuration holds a block.
    pub fn update_network(&self, content: &str, ssid: &str, password: &str) -> (r: Result<
        String,
        ManagerError,
    >)
        ensures
            match r {
                Ok(text) => compiles(WpaSupplicantManager::network_pattern())
                    && (WpaSupplicantManager::blocks(content@).len() > 0 ==> compiles(
                    WpaSupplicantManager::ssid_pattern(),
                )) && text@ == WpaSupplicantManager::with_network(content@, ssid@, password@),
                Err(ManagerError::NetworkPattern) => !compiles(
                    WpaSupplicantManager::network_pattern(),
                ),
                Err(ManagerError::SsidPattern) => compiles(WpaSupplicantManager::network_pattern())
                    && WpaSupplicantManager::blocks(content@).len() > 0 && !compiles(
                    WpaSupplicantManager::ssid_pattern(),
                ),
            },
    {
        self.update_or_add_network(content, ssid, password)
    }

    /// The configuration `content` with the network in it.
    pub fn update_or_add_network(&self, content: &str, ssid: &str, password: &str) -> (r: Result<
        String,
        ManagerError,
    >)
        ensures
            match r {
                Ok(text) => compiles(WpaSupplicantManager::network_pattern())
                    && (WpaSupplicantManager::blocks(content@).len() > 0 ==> compiles(
                    WpaSupplicantManager::ssid_pattern(),
                )) && text@ == WpaSupplicantManager::with_network(content@, ssid@, password@),
                Err(ManagerError::NetworkPattern) => !compiles(
                    WpaSupplicantManager::network_pattern(),
                ),
                Err(ManagerError::SsidPattern) => compiles(WpaSupplicantManager::network_pattern())
                    && WpaSupplicantManager::blocks(content@).len() > 0 && !compiles(
                    WpaSupplicantManager::ssid_pattern(),
                ),
            },
    {
        let ssid_chars = chars_of(ssid);
        let password_chars = chars_of(password);
        let escaped_ssid = remove_char(ssid_chars.as_slice(), '"');
        let escaped_password = remove_char(password_chars.as_slice(), '"');
        let text = chars_of(content);
        let spans = match find_spans(
            r"(?s)network=\{[^}]*ssid=['\x22]?([^'\x22\s}]+)['\x22]?[^}]*\}",
            content,
        ) {
            Some(spans) => spans,
            None => {
                return Err(ManagerError::NetworkPattern);
            },
        };
        let mut marked: Vec<(usize, usize, bool)> = Vec::new();
        let mut i: usize = 0;
        while i < spans.len()
            invariant
                i <= spans.len(),
                marked.len() == i,
                text@ == content@,
                compiles(WpaSupplicantManager::network_pattern()),
                spans_view(spans@) == WpaSupplicantManager::blocks(content@),
                i > 0 ==> compiles(WpaSupplicantManager::ssid_pattern()),
                forall|j: int|
                    0 <= j < i ==> (#[trigger] marked@[j]).0 == spans@[j].0 && marked@[j].1
                        == spans@[j].1 && marked@[j].2 == WpaSupplicantManager::names(
                        WpaSupplicantManager::slice(content@, span_view(spans@[j])),
                        escaped_ssid@,
                    ),
            decreases spans.len() - i,
        {
            let start = char_index(text.as_slice(), spans[i].0);
            let end = char_index(text.as_slice(), spans[i].1);
            let matched = if start <= end {
                let block = slice_subrange(text.as_slice(), start, end);
                self.network_matches_ssid(block, escaped_ssid.as_slice())
            } else {
                let empty: Vec<char> = Vec::new();
                self.network_matches_ssid(empty.as_slice(), escaped_ssid.as_slice())
            };
            let hit = match matched {
                Ok(hit) => hit,
                Err(e) => {
                    assert(spans_view(spans@).len() == spans@.len());
                    return Err(e);
                },
            };
            marked.push((spans[i].0, spans[i].1, hit));
            i += 1;
        }
        let block = self.create_client_network_block(
            escaped_ssid.as_slice(),
            escaped_password.as_slice(),
        );
        assert(WpaSupplicantManager::spans_of(marked@) =~= spans_view(spans@));
        assert(WpaSupplicantManager::marks_of(marked@) =~= WpaSupplicantManager::hits_of(
            content@,
            spans_view(spans@),
            escaped_ssid@,
        ));
        let updated = Self::replace_networks(text.as_slice(), &marked, block.as_slice());
        Ok(string_of(updated.as_slice()))
    }

    /// Whether `network_block` names the network `target_ssid`, by what the
    /// first group of the name's pattern holds in the block. The only error
    /// is that the pattern is refused.
    pub fn network_matches_ssid(&self, network_block: &[char], target_ssid: &[char]) -> (r: Result<
        bool,
        ManagerError,
    >)
        ensures
            match r {
                Ok(hit) => compiles(WpaSupplicantManager::ssid_pattern()) && hit
                    == WpaSupplicantManager::names(network_block@, target_ssid@),
                Err(e) => e == ManagerError::SsidPattern && !compiles(
                    WpaSupplicantManager::ssid_pattern(),
                ),
            },
    {
        let block = string_of(network_block);
        match find_capture(r"ssid=['\x22]?([^'\x22\s}]+)['\x22]?", block.as_str(), 1) {
            Some(Some(span)) => Ok(Self::names_network(network_block, span, target_ssid)),
            Some(None) => Ok(false),
            None => Err(ManagerError::SsidPattern),
        }
    }

    /// Whether what lies in `network_block` between the byte offsets of
    /// `span` is `target_ssid`.
    pub fn names_network(network_block: &[char], span: (usize, usize), target_ssid: &[char]) -> (r:
        bool)
        ensures
            r == (chars_before(network_block@, span.0 as int) <= chars_before(
                network_block@,
                span.1 as int,
            ) <= network_block@.len() && WpaSupplicantManager::slice(
                network_block@,
                span_view(span),
            ) == target_ssid@),
    {
        let start = char_index(network_block, span.0);
        let end = char_index(network_block, span.1);
        if start <= end {
            equal(slice_subrange(network_block, start, end), target_ssid)
        } else {
            false
        }
    }

    /// The block that describes a client network.
    pub fn create_client_network_block(&self, ssid: &[char], password: &[char]) -> (r: Vec<char>)
        ensures
            r@ == WpaSupplicantManager::client_block(ssid@, password@),
    {
        let mut out: Vec<char> = Vec::new();
        push_str(&mut out, "network={\n    ssid=\"");
        push_chars(&mut out, ssid);
        push_str(&mut out, "\"\n    psk=\"");
        push_chars(&mut out, password);
        push_str(&mut out, "\"\n    key_mgmt=WPA-PSK\n}\n");
        assert(out@ =~= WpaSupplicantManager::client_block(ssid@, password@));
        out
    }

    /// The text with `block` in place of every span that is marked, or with
    /// `block` at its end if it replaced nothing. The spans are byte offsets
    /// into the text.
    pub fn replace_networks(text: &[char], marked: &Vec<(usize, usize, bool)>, block: &[char]) -> (r:
        Vec<char>)
        ensures
            r@ == WpaSupplicantManager::updated(
                text@,
                WpaSupplicantManager::spans_of(marked@),
                WpaSupplicantManager::marks_of(marked@),
                block@,
            ),
    {
        let mut out: Vec<char> = Vec::new();
        let mut found_existing = false;
        let mut last_end: usize = 0;
        let mut i: usize = 0;
        let ghost all = WpaSupplicantManager::spans_of(marked@);
        let ghost hits = WpaSupplicantManager::marks_of(marked@);
        assert(all.skip(0) =~= all);
        assert(hits.skip(0) =~= hits);
        while i < marked.len()
            invariant
                i <= marked.len(),
                all == WpaSupplicantManager::spans_of(marked@),
                hits == WpaSupplicantManager::marks_of(marked@),
                last_end <= text.len(),
                out@ + WpaSupplicantManager::spliced(
                    text@,
                    all.skip(i as int),
                    hits.skip(i as int),
                    block@,
                    last_end as int,
                ) == WpaSupplicantManager::spliced(text@, all, hits, block@, 0),
                (found_existing || WpaSupplicantManager::replaced(
                    text@,
                    all.skip(i as int),
                    hits.skip(i as int),
                    last_end as int,
                )) == WpaSupplicantManager::replaced(text@, all, hits, 0),
            decreases marked.len() - i,
        {
            let start = char_index(text, marked[i].0);
            let end = char_index(text, marked[i].1);
            let ghost rest = all.skip(i as int);
            let ghost marks = hits.skip(i as int);
            assert(rest[0] == (marked@[i as int].0 as int, marked@[i as int].1 as int));
            assert(marks[0] == marked@[i as int].2);
            assert(rest.drop_first() =~= all.skip(i as int + 1));
            assert(marks.drop_first() =~= hits.skip(i as int + 1));
            let ghost before = out@;
            let ghost tail = WpaSupplicantManager::spliced(
                text@,
                rest.drop_first(),
                marks.drop_first(),
                block@,
                end as int,
            );
            if last_end <= start && start <= end {
                if marked[i].2 {
                    push_chars(&mut out, slice_subrange(text, last_end, start));
                    push_chars(&mut out, block);
                    found_existing = true;
                    assert(out@ + tail =~= before + ((text@.subrange(last_end as int, start as int)
                        + block@) + tail));
                } else {
                    push_chars(&mut out, slice_subrange(text, last_end, end));
                    assert(out@ + tail =~= before + (text@.subrange(last_end as int, end as int)
                        + tail));
                }
                last_end = end;
            }
            i += 1;
        }
        push_chars(&mut out, slice_subrange(text, last_end, text.len()));
        if !found_existing {
            if !(out.len() > 0 && out[out.len() - 1] == '\n') {
                out.push('\n');
            }
            out.push('\n');
            let ghost body = WpaSupplicantManager::spliced(text@, all, hits, block@, 0);
            let ghost head = out@;
            push_chars(&mut out, block);
            assert(out@ =~= head + block@);
            assert(head =~= if body.len() > 0 && body.last() == '\n' {
                body + seq!['\n']
            } else {
                body + seq!['\n', '\n']
            });
        }
        out
    }
}

} // verus!
