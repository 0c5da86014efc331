//! Desktop-application rules: making sure the Discord output is usable,
//! and the status text shown on the tray icon.

use vstd::prelude::*;
use crate::config::{Config, OutputConfig};
use crate::text::{append_str, push_char};

verus! {

/// The default Discord application id of the desktop application.
pub const DESKTOP_DISCORD_APP_ID: u64 = 1533559059125637311;

/// The Discord application id of FL Studio.
pub const FL_STUDIO_APP_ID: u64 = 1192880494086455357;

/// The Discord application id of Antigravity.
pub const ANTIGRAVITY_APP_ID: u64 = 1543009205785591868;

/// The Discord application id of OpenCode.
pub const OPENCODE_APP_ID: u64 = 1273940066603106328;

/// `m` with `k` mapped to `v` unless `k` already has a value.
pub open spec fn insert_missing(m: Map<Seq<char>, u64>, k: Seq<char>, v: u64) -> Map<Seq<char>, u64> {
    if m.dom().contains(k) {
        m
    } else {
        m.insert(k, v)
    }
}

/// The output settings after making Discord usable: when Discord is off
/// or has no per-source ids, it is turned on, given the default id when it
/// has none, and the ids of the built-in sources are added where missing.
/// Otherwise the settings are kept.
pub open spec fn with_desktop_discord(o: OutputConfig) -> (bool, u64, Map<Seq<char>, u64>) {
    if !o.discord || o.discord_apps@.dom().len() == 0 {
        (
            true,
            if o.discord_app_id == 0 {
                DESKTOP_DISCORD_APP_ID
            } else {
                o.discord_app_id
            },
            insert_missing(
                insert_missing(
                    insert_missing(o.discord_apps@, "FL Studio"@, FL_STUDIO_APP_ID),
                    "Antigravity"@,
                    ANTIGRAVITY_APP_ID,
                ),
                "OpenCode"@,
                OPENCODE_APP_ID,
            ),
        )
    } else {
        (o.discord, o.discord_app_id, o.discord_apps@)
    }
}

/// Makes sure the desktop's Discord output is on and knows the
/// application ids, even when an older or partial configuration left
/// them out. Nothing else in the configuration changes.
pub fn ensure_desktop_discord(config: &mut Config)
    ensures
        (final(config).outputs.discord, final(config).outputs.discord_app_id, final(config).outputs.discord_apps@)
            == with_desktop_discord(old(config).outputs),
        final(config).outputs.console == old(config).outputs.console,
        final(config).config_version == old(config).config_version,
        final(config).log_level == old(config).log_level,
        final(config).runtime == old(config).runtime,
        final(config).plugins == old(config).plugins,
        final(config).presence == old(config).presence,
{
    if !config.outputs.discord || config.outputs.discord_apps.is_empty() {
        config.outputs.discord = true;
        if config.outputs.discord_app_id == 0 {
            config.outputs.discord_app_id = DESKTOP_DISCORD_APP_ID;
        }
        if !config.outputs.discord_apps.contains_key("FL Studio") {
            config.outputs.discord_apps.insert("FL Studio".to_owned(), FL_STUDIO_APP_ID);
        }
        if !config.outputs.discord_apps.contains_key("Antigravity") {
            config.outputs.discord_apps.insert("Antigravity".to_owned(), ANTIGRAVITY_APP_ID);
        }
        if !config.outputs.discord_apps.contains_key("OpenCode") {
            config.outputs.discord_apps.insert("OpenCode".to_owned(), OPENCODE_APP_ID);
        }
    }
}

/// The number of bytes of a character in UTF-8.
pub open spec fn utf8_len(c: char) -> nat {
    if (c as u32) < 0x80 {
        1
    } else if (c as u32) < 0x800 {
        2
    } else if (c as u32) < 0x10000 {
        3
    } else {
        4
    }
}

/// The number of bytes of a character sequence in UTF-8.
pub open spec fn byte_len(s: Seq<char>) -> nat
    decreases s.len(),
{
    if s.len() == 0 {
        0
    } else {
        byte_len(s.drop_last()) + utf8_len(s.last())
    }
}

/// The longest prefix of `s` taking at most `n` bytes, as a length.
pub open spec fn prefix_within(s: Seq<char>, n: nat) -> int
    decreases s.len(),
{
    if byte_len(s) <= n {
        s.len() as int
    } else {
        prefix_within(s.drop_last(), n)
    }
}

/// The longest text a tray tooltip shows whole, in bytes.
pub const TOOLTIP_MAX_BYTES: usize = 60;

/// Where a longer tooltip is cut, in bytes, before "..." is added.
pub const TOOLTIP_CUT_BYTES: usize = 57;

/// The tray tooltip before shortening.
pub open spec fn tooltip_text(paused: bool, connected: bool, current: Option<(Seq<char>, Seq<char>)>) -> Seq<char> {
    if paused {
        "Presence: Paused"@
    } else if !connected {
        "Presence: Discord Disconnected"@
    } else {
        match current {
            Some((source, state)) => "Presence: "@ + source + " \u{2014} "@ + state,
            None => "Presence: Watching (Idle)"@,
        }
    }
}

/// The tray tooltip: the text itself up to 60 bytes; beyond, its first 57
/// bytes and "...". None when byte 57 falls inside a character, where the
/// text cannot be cut.
pub open spec fn tooltip(paused: bool, connected: bool, current: Option<(Seq<char>, Seq<char>)>) -> Option<Seq<char>> {
    let t = tooltip_text(paused, connected, current);
    if byte_len(t) <= 60 {
        Some(t)
    } else {
        let k = prefix_within(t, 57);
        if byte_len(t.take(k)) == 57 {
            Some(t.take(k) + "..."@)
        } else {
            None
        }
    }
}

/// The UTF-8 length of one character.
fn char_len(c: char) -> (r: usize)
    ensures
        r == utf8_len(c),
{
    let v = c as u32;
    if v < 0x80 {
        1
    } else if v < 0x800 {
        2
    } else if v < 0x10000 {
        3
    } else {
        4
    }
}

/// Taking characters one at a time, the prefix within `n` bytes grows by
/// each character that still fits.
proof fn lemma_prefix_within_take(s: Seq<char>, n: nat, i: int)
    requires
        0 <= i < s.len(),
        byte_len(s.take(i)) <= n,
    ensures
        byte_len(s.take(i + 1)) == byte_len(s.take(i)) + utf8_len(s[i]),
{
    assert(s.take(i + 1).drop_last() =~= s.take(i));
}

/// The prefix length found by a scan equals the spec's.
proof fn lemma_prefix_within_is(s: Seq<char>, n: nat, k: int)
    requires
        0 <= k <= s.len(),
        byte_len(s.take(k)) <= n,
        k == s.len() || byte_len(s.take(k + 1)) > n,
    ensures
        prefix_within(s, n) == k,
    decreases s.len(),
{
    if byte_len(s) <= n {
        if k < s.len() {
            lemma_take_le(s, k + 1);
        } else {
            assert(s.take(k) =~= s);
        }
    } else {
        if k == s.len() {
            assert(s.take(k) =~= s);
        } else {
            assert(s.drop_last().take(k) =~= s.take(k));
            if k + 1 <= s.drop_last().len() {
                assert(s.drop_last().take(k + 1) =~= s.take(k + 1));
            } else {
                assert(s.drop_last() =~= s.take(k));
                assert(byte_len(s.drop_last()) <= n);
            }
            lemma_prefix_within_is(s.drop_last(), n, k);
        }
    }
}

/// A prefix takes no more bytes than the whole.
proof fn lemma_take_le(s: Seq<char>, k: int)
    requires
        0 <= k <= s.len(),
    ensures
        byte_len(s.take(k)) <= byte_len(s),
    decreases s.len() - k,
{
    if k < s.len() {
        lemma_take_le(s, k + 1);
        assert(s.take(k + 1).drop_last() =~= s.take(k));
    } else {
        assert(s.take(k) =~= s);
    }
}

/// The bytes of two joined sequences are those of each.
proof fn lemma_byte_len_concat(a: Seq<char>, b: Seq<char>)
    ensures
        byte_len(a + b) == byte_len(a) + byte_len(b),
    decreases b.len(),
{
    if b.len() > 0 {
        lemma_byte_len_concat(a, b.drop_last());
        assert((a + b).drop_last() =~= a + b.drop_last());
    } else {
        assert(a + b =~= a);
    }
}

/// A tray tooltip never takes more than 60 bytes, and a text that fits
/// is shown whole.
pub proof fn law_tooltip_fits(paused: bool, connected: bool, current: Option<(Seq<char>, Seq<char>)>)
    ensures
        tooltip(paused, connected, current) matches Some(x) ==> byte_len(x) <= TOOLTIP_MAX_BYTES,
        byte_len(tooltip_text(paused, connected, current)) <= TOOLTIP_MAX_BYTES ==> tooltip(
            paused,
            connected,
            current,
        ) == Some(tooltip_text(paused, connected, current)),
{
    let t = tooltip_text(paused, connected, current);
    if byte_len(t) > 60 {
        let k = prefix_within(t, 57);
        reveal_strlit("...");
        let dots = "..."@;
        let one = seq!['.'];
        let two = one.push('.');
        assert(dots =~= two.push('.'));
        assert(one.drop_last() =~= Seq::<char>::empty());
        assert(byte_len(Seq::<char>::empty()) == 0);
        assert(byte_len(one) == 1);
        assert(two.drop_last() =~= one);
        assert(byte_len(two) == 2);
        assert(two.push('.').drop_last() =~= two);
        assert(byte_len(two.push('.')) == 3);
        assert(byte_len(dots) == 3);
        lemma_byte_len_concat(t.take(k), dots);
    }
}

/// The tray tooltip text for the current state.
pub fn tray_tooltip(paused: bool, connected: bool, current: Option<(&str, &str)>) -> (r: Option<String>)
    ensures
        opt_seq(r) == tooltip(
            paused,
            connected,
            match current {
                Some((a, b)) => Some((a@, b@)),
                None => None,
            },
        ),
{
    let mut text = String::new();
    if paused {
        append_str(&mut text, "Presence: Paused");
    } else if !connected {
        append_str(&mut text, "Presence: Discord Disconnected");
    } else {
        match current {
            Some((source, state)) => {
                append_str(&mut text, "Presence: ");
                append_str(&mut text, source);
                append_str(&mut text, " \u{2014} ");
                append_str(&mut text, state);
            },
            None => {
                append_str(&mut text, "Presence: Watching (Idle)");
            },
        }
    }
    let ghost t = text@;
    let chars = crate::text::chars_of(text.as_str());
    let mut total: usize = 0;
    let mut i: usize = 0;
    while i < chars.len() && total <= TOOLTIP_MAX_BYTES
        invariant
            chars@ == t,
            i <= chars@.len(),
            total == byte_len(t.take(i as int)),
            total <= 64,
        decreases chars@.len() - i,
    {
        proof {
            assert(t.take(i + 1).drop_last() =~= t.take(i as int));
        }
        total = total + char_len(chars[i]);
        i = i + 1;
    }
    proof {
        lemma_take_le(t, i as int);
        if i == chars@.len() {
            assert(t.take(t.len() as int) =~= t);
        }
    }
    if total <= TOOLTIP_MAX_BYTES {
        return Some(text);
    }
    let mut cut: usize = 0;
    let mut k: usize = 0;
    while k < chars.len() && cut + char_len(chars[k]) <= TOOLTIP_CUT_BYTES
        invariant
            chars@ == t,
            k <= chars@.len(),
            cut == byte_len(t.take(k as int)),
            cut <= 57,
        decreases chars@.len() - k,
    {
        proof {
            lemma_prefix_within_take(t, 57, k as int);
        }
        cut = cut + char_len(chars[k]);
        k = k + 1;
    }
    proof {
        if k < chars@.len() {
            lemma_prefix_within_take(t, 57, k as int);
        }
        lemma_prefix_within_is(t, 57, k as int);
    }
    if cut != TOOLTIP_CUT_BYTES {
        return None;
    }
    let mut out = String::new();
    let mut j: usize = 0;
    while j < k
        invariant
            chars@ == t,
            j <= k <= chars@.len(),
            out@ == t.take(j as int),
        decreases k - j,
    {
        push_char(&mut out, chars[j]);
        assert(t.take(j + 1) =~= t.take(j as int).push(chars@[j as int]));
        j = j + 1;
    }
    append_str(&mut out, "...");
    Some(out)
}

/// The characters of an optional string.
pub open spec fn opt_seq(o: Option<String>) -> Option<Seq<char>> {
    match o {
        Some(s) => Some(s@),
        None => None,
    }
}

} // verus!
