//! Rules of the tracker's web service: room names, room access, WebSocket
//! origin validation and multiworld display classes.

use vstd::prelude::*;
use vstd::std_specs::cmp::PartialEqSpec;
use vstd::string::StrSliceExecFns;

use crate::text::str_eq;

verus! {

/// Default room name for PJ64 connections.
pub const DEFAULT_PJ64_ROOM: &'static str = "pj64";

/// TCP port on which the tracker listens for PJ64 connections.
pub const TCP_PORT: u16 = 24801;

// ============================================================================
// Room names
// ============================================================================

/// A lowercase ASCII letter or an ASCII digit.
pub open spec fn spec_is_name_char(c: char) -> bool {
    ('0' <= c && c <= '9') || ('a' <= c && c <= 'z')
}

/// A valid room name: one or more runs of lowercase letters and digits,
/// separated by single hyphens (`^[0-9a-z]+(?:-[0-9a-z]+)*$`).
pub open spec fn spec_valid_room_name(s: Seq<char>) -> bool {
    &&& s.len() > 0
    &&& forall|i: int| 0 <= i < s.len() ==> spec_is_name_char(#[trigger] s[i]) || s[i] == '-'
    &&& s[0] != '-'
    &&& s[s.len() - 1] != '-'
    &&& forall|i: int| 0 <= i < s.len() - 1 ==> !(#[trigger] s[i] == '-' && s[i + 1] == '-')
}

/// Whether `name` is a valid room name: one or more runs of lowercase
/// letters and digits, separated by single hyphens.
pub fn is_valid_room_name(name: &str) -> (r: bool)
    ensures
        r == spec_valid_room_name(name@),
{
    let n = name.unicode_len();
    if n == 0 {
        return false;
    }
    let mut prev_hyphen = true;
    let mut i: usize = 0;
    while i < n
        invariant
            n == name@.len(),
            n > 0,
            i <= n,
            forall|j: int| 0 <= j < i ==> spec_is_name_char(#[trigger] name@[j]) || name@[j] == '-',
            i > 0 ==> name@[0] != '-',
            forall|j: int| 0 <= j < i - 1 ==> !(#[trigger] name@[j] == '-' && name@[j + 1] == '-'),
            prev_hyphen == (i == 0 || name@[i - 1] == '-'),
        decreases n - i,
    {
        let c = name.get_char(i);
        if c == '-' {
            if prev_hyphen {
                assert(!spec_valid_room_name(name@) || i > 0);
                assert(i > 0 ==> name@[i - 1] == '-' && name@[i as int] == '-');
                return false;
            }
            prev_hyphen = true;
        } else if ('0' <= c && c <= '9') || ('a' <= c && c <= 'z') {
            prev_hyphen = false;
        } else {
            return false;
        }
        i = i + 1;
    }
    !prev_hyphen
}

// ============================================================================
// Room access
// ============================================================================

/// Whether a client presenting `provided` may modify a room whose token is
/// `room_token`: any client may modify a room without a token; a room with a
/// token only by a client presenting that token.
pub open spec fn spec_check_auth(room_token: Option<Seq<char>>, provided: Option<Seq<char>>) -> bool {
    match room_token {
        None => true,
        Some(t) => provided == Some(t),
    }
}

/// The view of an optional string slice.
pub open spec fn spec_opt_str(o: Option<&str>) -> Option<Seq<char>> {
    match o {
        Some(s) => Some(s@),
        None => None,
    }
}

/// Checks whether the provided token authorizes write access to a room.
pub fn check_auth(room_token: Option<&str>, provided: Option<&str>) -> (r: bool)
    ensures
        r == spec_check_auth(spec_opt_str(room_token), spec_opt_str(provided)),
{
    match room_token {
        None => true,
        Some(t) => match provided {
            Some(p) => str_eq(p, t),
            None => false,
        },
    }
}

// ============================================================================
// Multiworld display
// ============================================================================

/// The CSS class of a multiworld player's world: the first three worlds
/// have their Triforce piece's colours, other worlds none.
pub fn world_class(world_id: u8) -> (r: Option<&'static str>)
    requires
        world_id != 0,
    ensures
        world_id == 1 ==> r == Some("power"),
        world_id == 2 ==> r == Some("wisdom"),
        world_id == 3 ==> r == Some("courage"),
        world_id > 3 ==> r is None,
{
    match world_id {
        1 => Some("power"),
        2 => Some("wisdom"),
        3 => Some("courage"),
        _ => None,
    }
}

/// The WebSocket cell ID of the cell at `index`: cell IDs are single bytes.
pub fn cell_id_from_index(index: usize) -> (r: Option<u8>)
    ensures
        match r {
            Some(id) => index < 256 && id as usize == index,
            None => index >= 256,
        },
{
    if index < 256 {
        Some(index as u8)
    } else {
        None
    }
}

// ============================================================================
// WebSocket origin validation
// ============================================================================

/// The origins allowed by default.
pub open spec fn spec_default_allowed_origins() -> Seq<Seq<char>> {
    seq![
        "http://localhost"@,
        "http://localhost:8000"@,
        "http://127.0.0.1"@,
        "http://127.0.0.1:8000"@,
        "https://oottracker.fenhl.net"@,
    ]
}

/// The origins allowed by default.
pub fn default_allowed_origins() -> (r: Vec<&'static str>)
    ensures
        r@.len() == spec_default_allowed_origins().len(),
        forall|i: int| 0 <= i < r@.len() ==> (#[trigger] r@[i])@ == spec_default_allowed_origins()[i],
{
    vec![
        "http://localhost",
        "http://localhost:8000",
        "http://127.0.0.1",
        "http://127.0.0.1:8000",
        "https://oottracker.fenhl.net",
    ]
}

/// Origin `o` matches allowed origin `a`: it is `a`, or `a` followed by a
/// colon and anything (a port).
pub open spec fn spec_origin_matches(o: Seq<char>, a: Seq<char>) -> bool {
    o == a || (o.len() > a.len() && o.subrange(0, a.len() as int) == a && o[a.len() as int] == ':')
}

/// Whether `origin` matches the allowed origin `allowed` (exactly, or with
/// a port).
pub fn origin_matches(origin: &str, allowed: &str) -> (r: bool)
    ensures
        r == spec_origin_matches(origin@, allowed@),
{
    if str_eq(origin, allowed) {
        return true;
    }
    let n = allowed.unicode_len();
    let m = origin.unicode_len();
    if m <= n {
        return false;
    }
    let mut i: usize = 0;
    while i < n
        invariant
            n == allowed@.len(),
            m == origin@.len(),
            n < m,
            i <= n,
            forall|j: int| 0 <= j < i ==> origin@[j] == allowed@[j],
        decreases n - i,
    {
        if origin.get_char(i) != allowed.get_char(i) {
            assert(origin@.subrange(0, n as int)[i as int] != allowed@[i as int]);
            return false;
        }
        i = i + 1;
    }
    assert(origin@.subrange(0, n as int) =~= allowed@);
    origin.get_char(n) == ':'
}

/// The pieces of `s` between commas, as `str::split(',')` yields them.
pub open spec fn spec_split_commas(s: Seq<char>) -> Seq<Seq<char>>
    decreases s.len(),
{
    if s.len() == 0 {
        seq![Seq::<char>::empty()]
    } else if s.last() == ',' {
        spec_split_commas(s.drop_last()).push(Seq::<char>::empty())
    } else {
        let p = spec_split_commas(s.drop_last());
        p.update(p.len() - 1, p.last().push(s.last()))
    }
}

proof fn lemma_split_commas_nonempty(s: Seq<char>)
    ensures
        spec_split_commas(s).len() > 0,
    decreases s.len(),
{
    if s.len() > 0 {
        lemma_split_commas_nonempty(s.drop_last());
    }
}

/// Splits `s` at each comma.
pub fn split_commas(s: &str) -> (r: Vec<&str>)
    ensures
        r@.len() == spec_split_commas(s@).len(),
        forall|i: int| 0 <= i < r@.len() ==> (#[trigger] r@[i])@ == spec_split_commas(s@)[i],
{
    let n = s.unicode_len();
    let mut parts: Vec<&str> = Vec::new();
    let ghost mut pv: Seq<Seq<char>> = Seq::empty();
    let mut start: usize = 0;
    let mut i: usize = 0;
    assert(s@.take(0).len() == 0);
    assert(s@.subrange(0, 0) =~= Seq::<char>::empty());
    assert(spec_split_commas(s@.take(0)) =~= pv.push(s@.subrange(0, 0)));
    while i < n
        invariant
            n == s@.len(),
            start <= i <= n,
            parts@.len() == pv.len(),
            forall|j: int| 0 <= j < parts@.len() ==> (#[trigger] parts@[j])@ == pv[j],
            pv.push(s@.subrange(start as int, i as int)) == spec_split_commas(s@.take(i as int)),
        decreases n - i,
    {
        let ghost pre = s@.take(i as int);
        let ghost cur = s@.take(i + 1);
        assert(cur.drop_last() =~= pre);
        assert(cur.last() == s@[i as int]);
        proof {
            lemma_split_commas_nonempty(pre);
        }
        let c = s.get_char(i);
        if c == ',' {
            let piece = s.substring_char(start, i);
            parts.push(piece);
            proof {
                pv = pv.push(s@.subrange(start as int, i as int));
            }
            start = i + 1;
            assert(s@.subrange(start as int, i + 1) =~= Seq::<char>::empty());
            assert(cur.last() == ',');
            assert(pv.push(s@.subrange(start as int, i + 1)) =~= spec_split_commas(cur));
        } else {
            assert(s@.subrange(start as int, i as int).push(s@[i as int]) =~= s@.subrange(
                start as int,
                i + 1,
            ));
            assert(pv.push(s@.subrange(start as int, i + 1)) =~= spec_split_commas(cur));
        }
        i = i + 1;
    }
    let last = s.substring_char(start, n);
    parts.push(last);
    proof {
        assert(s@.take(n as int) =~= s@);
        pv = pv.push(s@.subrange(start as int, n as int));
    }
    assert(pv =~= spec_split_commas(s@));
    parts
}

/// A whitespace character: one with the Unicode `White_Space` property, as
/// `char::is_whitespace` tests it.
pub open spec fn spec_is_whitespace(c: char) -> bool {
    let u = c as u32;
    (0x09 <= u && u <= 0x0D) || u == 0x20 || u == 0x85 || u == 0xA0 || u == 0x1680 || (0x2000 <= u
        && u <= 0x200A) || u == 0x2028 || u == 0x2029 || u == 0x202F || u == 0x205F || u == 0x3000
}

/// The string without its leading whitespace.
pub open spec fn spec_trim_start(s: Seq<char>) -> Seq<char>
    decreases s.len(),
{
    if s.len() > 0 && spec_is_whitespace(s[0]) {
        spec_trim_start(s.drop_first())
    } else {
        s
    }
}

/// The string without its trailing whitespace.
pub open spec fn spec_trim_end(s: Seq<char>) -> Seq<char>
    decreases s.len(),
{
    if s.len() > 0 && spec_is_whitespace(s.last()) {
        spec_trim_end(s.drop_last())
    } else {
        s
    }
}

/// The string with leading and trailing whitespace removed, as `str::trim`
/// computes it.
pub open spec fn spec_trim(s: Seq<char>) -> Seq<char> {
    spec_trim_end(spec_trim_start(s))
}

/// Whether a character is whitespace (`char::is_whitespace`).
fn is_whitespace_char(c: char) -> (r: bool)
    ensures
        r == spec_is_whitespace(c),
{
    let u = c as u32;
    (0x09 <= u && u <= 0x0D) || u == 0x20 || u == 0x85 || u == 0xA0 || u == 0x1680 || (0x2000 <= u
        && u <= 0x200A) || u == 0x2028 || u == 0x2029 || u == 0x202F || u == 0x205F || u == 0x3000
}

/// Removes leading and trailing whitespace, as `str::trim` does.
fn trim(s: &str) -> (r: &str)
    ensures
        r@ == spec_trim(s@),
{
    let n = s.unicode_len();
    let mut start: usize = 0;
    assert(s@.subrange(0, n as int) =~= s@);
    while start < n
        invariant
            n == s@.len(),
            start <= n,
            spec_trim_start(s@) == spec_trim_start(s@.subrange(start as int, n as int)),
        ensures
            start <= n,
            spec_trim_start(s@) == spec_trim_start(s@.subrange(start as int, n as int)),
            start == n || !spec_is_whitespace(s@[start as int]),
        decreases n - start,
    {
        if !is_whitespace_char(s.get_char(start)) {
            break;
        }
        assert(s@.subrange(start + 1, n as int) =~= s@.subrange(start as int, n as int).drop_first());
        start = start + 1;
    }
    let ghost rest = s@.subrange(start as int, n as int);
    assert(spec_trim_start(rest) == rest);
    let mut end: usize = n;
    while end > start
        invariant
            n == s@.len(),
            start <= end <= n,
            rest == s@.subrange(start as int, n as int),
            spec_trim_end(rest) == spec_trim_end(s@.subrange(start as int, end as int)),
        ensures
            start <= end <= n,
            spec_trim_end(rest) == spec_trim_end(s@.subrange(start as int, end as int)),
            end == start || !spec_is_whitespace(s@[end - 1]),
        decreases end - start,
    {
        if !is_whitespace_char(s.get_char(end - 1)) {
            break;
        }
        assert(s@.subrange(start as int, end - 1) =~= s@.subrange(start as int, end as int).drop_last());
        end = end - 1;
    }
    let ghost kept = s@.subrange(start as int, end as int);
    assert(spec_trim_end(kept) == kept);
    s.substring_char(start, end)
}

/// Whether a WebSocket connection from `origin` is allowed. Requests without
/// an origin are allowed; otherwise the origin must match one of the
/// comma-separated entries (with surrounding whitespace trimmed) of the
/// configured list `configured`, or one of the default origins when no list
/// is configured.
pub open spec fn spec_origin_allowed(origin: Option<Seq<char>>, configured: Option<Seq<char>>) -> bool {
    match origin {
        None => true,
        Some(o) => match configured {
            Some(list) => spec_matches_configured(o, list),
            None => spec_matches_default(o),
        },
    }
}

/// Origin `o` matches an entry of the comma-separated list `list`, with the
/// entry's surrounding whitespace trimmed.
pub open spec fn spec_matches_configured(o: Seq<char>, list: Seq<char>) -> bool {
    exists|i: int|
        0 <= i < spec_split_commas(list).len() && spec_origin_matches(
            o,
            spec_trim(#[trigger] spec_split_commas(list)[i]),
        )
}

/// Origin `o` matches one of the default origins.
pub open spec fn spec_matches_default(o: Seq<char>) -> bool {
    exists|i: int|
        0 <= i < spec_default_allowed_origins().len() && spec_origin_matches(
            o,
            #[trigger] spec_default_allowed_origins()[i],
        )
}

/// Validates whether the provided Origin header is allowed, given the
/// configured list of allowed origins (comma-separated), if any.
pub fn is_origin_allowed(origin: Option<&str>, configured: Option<&str>) -> (r: bool)
    ensures
        r == spec_origin_allowed(spec_opt_str(origin), spec_opt_str(configured)),
{
    let o = match origin {
        None => return true,
        Some(o) => o,
    };
    match configured {
        Some(list) => {
            let parts = split_commas(list);
            let n = parts.len();
            let mut i: usize = 0;
            while i < n
                invariant
                    origin == Some(o),
                    configured == Some(list),
                    n == parts@.len(),
                    n == spec_split_commas(list@).len(),
                    i <= n,
                    forall|j: int| 0 <= j < parts@.len() ==> (#[trigger] parts@[j])@ == spec_split_commas(list@)[j],
                    forall|j: int|
                        0 <= j < i ==> !spec_origin_matches(o@, spec_trim(#[trigger] spec_split_commas(list@)[j])),
                decreases n - i,
            {
                let entry = trim(parts[i]);
                if origin_matches(o, entry) {
                    assert(parts@[i as int]@ == spec_split_commas(list@)[i as int]);
                    assert(spec_origin_matches(o@, spec_trim(spec_split_commas(list@)[i as int])));
                    assert(spec_matches_configured(o@, list@));
                    return true;
                }
                i = i + 1;
            }
            false
        },
        None => {
            let defaults = default_allowed_origins();
            let n = defaults.len();
            let mut i: usize = 0;
            while i < n
                invariant
                    origin == Some(o),
                    configured is None,
                    n == defaults@.len(),
                    n == spec_default_allowed_origins().len(),
                    i <= n,
                    forall|j: int|
                        0 <= j < defaults@.len() ==> (#[trigger] defaults@[j])@ == spec_default_allowed_origins()[j],
                    forall|j: int|
                        0 <= j < i ==> !spec_origin_matches(o@, #[trigger] spec_default_allowed_origins()[j]),
                decreases n - i,
            {
                if origin_matches(o, defaults[i]) {
                    assert(defaults@[i as int]@ == spec_default_allowed_origins()[i as int]);
                    assert(spec_origin_matches(o@, spec_default_allowed_origins()[i as int]));
                    return true;
                }
                i = i + 1;
            }
            false
        },
    }
}

// ============================================================================
// Cell updates
// ============================================================================

/// The indices below `n` at which `old` and `new` hold different cells, in
/// increasing order.
pub open spec fn spec_changed_cells<T: PartialEq>(old: Seq<T>, new: Seq<T>, n: int) -> Seq<int>
    decreases n,
{
    if n <= 0 {
        Seq::empty()
    } else {
        let rest = spec_changed_cells(old, new, n - 1);
        if old[n - 1].eq_spec(&new[n - 1]) {
            rest
        } else {
            rest.push(n - 1)
        }
    }
}

/// The shorter of two lengths.
pub open spec fn spec_min_len(a: nat, b: nat) -> nat {
    if a <= b {
        a
    } else {
        b
    }
}

/// The cell IDs of the cells that changed between `old` and `new` (compared
/// pairwise, up to the shorter list), in increasing order: the cells a
/// subscriber must be sent. Cell IDs are single bytes, so every changed cell
/// must lie among the first 256.
pub fn cell_updates<T: PartialEq>(old: &Vec<T>, new: &Vec<T>) -> (r: Vec<u8>)
    requires
        T::obeys_eq_spec(),
        forall|i: int|
            256 <= i < spec_min_len(old@.len(), new@.len()) ==> (#[trigger] old@[i]).eq_spec(&new@[i]),
    ensures
        r@.len() == spec_changed_cells(old@, new@, spec_min_len(old@.len(), new@.len()) as int).len(),
        forall|j: int|
            0 <= j < r@.len() ==> #[trigger] r@[j] as int == spec_changed_cells(
                old@,
                new@,
                spec_min_len(old@.len(), new@.len()) as int,
            )[j],
{
    let n = if old.len() <= new.len() {
        old.len()
    } else {
        new.len()
    };
    let mut r: Vec<u8> = Vec::new();
    let mut i: usize = 0;
    while i < n
        invariant
            T::obeys_eq_spec(),
            n == spec_min_len(old@.len(), new@.len()),
            i <= n,
            forall|x: int| 256 <= x < n ==> (#[trigger] old@[x]).eq_spec(&new@[x]),
            r@.len() == spec_changed_cells(old@, new@, i as int).len(),
            forall|j: int| 0 <= j < r@.len() ==> #[trigger] r@[j] as int == spec_changed_cells(old@, new@, i as int)[j],
        decreases n - i,
    {
        let same = old[i].eq(&new[i]);
        if !same {
            assert(i < 256);
            r.push(i as u8);
        }
        i = i + 1;
    }
    r
}

/// The cell at `index` of a WebSocket cell ID.
pub fn cell_index(cell_id: u8) -> (r: usize)
    ensures
        r == cell_id,
{
    cell_id as usize
}

// ============================================================================
// PJ64 packets
// ============================================================================

/// The kinds of packet a PJ64 connection sends.
#[derive(Debug, Clone, Copy, PartialEq, Eq, Structural)]
pub enum Pj64PacketKind {
    /// Full RAM, with whether its save is in gameplay.
    RamInit { gameplay: bool },
    /// A full save.
    SaveInit,
    /// A change to the save.
    SaveDelta,
    /// Full knowledge.
    KnowledgeInit,
    /// A full model.
    ModelInit,
    /// A change to the model.
    ModelDelta,
    /// Majora's Mask save data.
    MmRamInit,
    /// A cell update, which only other clients send.
    UpdateCell,
    /// The connection closes.
    Goodbye,
}

/// What a room does with a PJ64 packet.
#[derive(Debug, Clone, Copy, PartialEq, Eq, Structural)]
pub enum Pj64Step {
    /// Apply the packet to the room's model, then update its knowledge when
    /// `update_knowledge`.
    Apply { update_knowledge: bool },
    /// Leave the room unchanged.
    Ignore,
    /// Leave the room unchanged and report an unexpected packet.
    Unexpected,
    /// Stop reading from the connection.
    Stop,
}

/// What a room does with a PJ64 packet: RAM is only taken while its save is
/// in gameplay; knowledge is applied as it is, every other state packet is
/// applied and followed by a knowledge update; a cell update is unexpected
/// from PJ64; goodbye ends the connection.
pub open spec fn spec_pj64_step(p: Pj64PacketKind) -> Pj64Step {
    match p {
        Pj64PacketKind::RamInit { gameplay } => if gameplay {
            Pj64Step::Apply { update_knowledge: true }
        } else {
            Pj64Step::Ignore
        },
        Pj64PacketKind::KnowledgeInit => Pj64Step::Apply { update_knowledge: false },
        Pj64PacketKind::SaveInit | Pj64PacketKind::SaveDelta | Pj64PacketKind::ModelInit
        | Pj64PacketKind::ModelDelta | Pj64PacketKind::MmRamInit => Pj64Step::Apply { update_knowledge: true },
        Pj64PacketKind::UpdateCell => Pj64Step::Unexpected,
        Pj64PacketKind::Goodbye => Pj64Step::Stop,
    }
}

/// Decides what a room does with a PJ64 packet.
pub fn pj64_step(p: Pj64PacketKind) -> (r: Pj64Step)
    ensures
        r == spec_pj64_step(p),
{
    match p {
        Pj64PacketKind::RamInit { gameplay } => if gameplay {
            Pj64Step::Apply { update_knowledge: true }
        } else {
            Pj64Step::Ignore
        },
        Pj64PacketKind::KnowledgeInit => Pj64Step::Apply { update_knowledge: false },
        Pj64PacketKind::SaveInit | Pj64PacketKind::SaveDelta | Pj64PacketKind::ModelInit
        | Pj64PacketKind::ModelDelta | Pj64PacketKind::MmRamInit => Pj64Step::Apply { update_knowledge: true },
        Pj64PacketKind::UpdateCell => Pj64Step::Unexpected,
        Pj64PacketKind::Goodbye => Pj64Step::Stop,
    }
}

// ============================================================================
// Laws
// ============================================================================

/// Law: a room name is invalid when it is empty, holds a character other
/// than a lowercase ASCII letter, an ASCII digit or a hyphen, starts or ends
/// with a hyphen, or holds two hyphens in a row; two valid names joined by a
/// hyphen make a valid name, and a valid name with a hyphen added at either
/// end is invalid.
pub proof fn lemma_room_names(s: Seq<char>, a: Seq<char>, b: Seq<char>)
    ensures
        s.len() == 0 ==> !spec_valid_room_name(s),
        (exists|i: int|
            0 <= i < s.len() && !((0x30 <= (#[trigger] s[i] as u32) <= 0x39) || (0x61 <= (s[i] as u32) <= 0x7A)
                || s[i] == '-')) ==> !spec_valid_room_name(s),
        s.len() > 0 && (s[0] == '-' || s[s.len() - 1] == '-') ==> !spec_valid_room_name(s),
        (exists|i: int| 0 <= i < s.len() - 1 && #[trigger] s[i] == '-' && s[i + 1] == '-')
            ==> !spec_valid_room_name(s),
        spec_valid_room_name(a) && spec_valid_room_name(b) ==> spec_valid_room_name(a + seq!['-'] + b),
        spec_valid_room_name(a) ==> !spec_valid_room_name(a + seq!['-']) && !spec_valid_room_name(seq!['-'] + a),
{
    if exists|i: int|
        0 <= i < s.len() && !((0x30 <= (#[trigger] s[i] as u32) <= 0x39) || (0x61 <= (s[i] as u32) <= 0x7A)
            || s[i] == '-') {
        let i = choose|i: int|
            0 <= i < s.len() && !((0x30 <= (#[trigger] s[i] as u32) <= 0x39) || (0x61 <= (s[i] as u32) <= 0x7A)
                || s[i] == '-');
        assert(!spec_is_name_char(s[i]));
    }
    if exists|i: int| 0 <= i < s.len() - 1 && #[trigger] s[i] == '-' && s[i + 1] == '-' {
        let i = choose|i: int| 0 <= i < s.len() - 1 && #[trigger] s[i] == '-' && s[i + 1] == '-';
        assert(s[i] == '-' && s[i + 1] == '-');
    }
    if spec_valid_room_name(a) && spec_valid_room_name(b) {
        let c = a + seq!['-'] + b;
        assert forall|i: int| 0 <= i < c.len() implies spec_is_name_char(#[trigger] c[i]) || c[i] == '-' by {
            if i < a.len() {
                assert(c[i] == a[i]);
            } else if i > a.len() {
                assert(c[i] == b[i - a.len() - 1]);
            }
        }
        assert forall|i: int| 0 <= i < c.len() - 1 implies !(#[trigger] c[i] == '-' && c[i + 1] == '-') by {
            if i < a.len() - 1 {
                assert(c[i] == a[i] && c[i + 1] == a[i + 1]);
            } else if i == a.len() - 1 {
                assert(c[i] == a[a.len() - 1]);
            } else if i == a.len() {
                assert(c[i + 1] == b[0]);
            } else {
                assert(c[i] == b[i - a.len() - 1] && c[i + 1] == b[i - a.len()]);
            }
        }
        assert(c[0] == a[0]);
        assert(c[c.len() - 1] == b[b.len() - 1]);
    }
    if spec_valid_room_name(a) {
        assert((a + seq!['-'])[a.len() as int] == '-');
        assert((seq!['-'] + a)[0] == '-');
    }
}

/// Law: a room without a token may be modified by anyone; a room with a
/// token only by a client presenting exactly that token.
pub proof fn lemma_room_access(t: Seq<char>, p: Option<Seq<char>>)
    ensures
        spec_check_auth(None, p),
        spec_check_auth(Some(t), Some(t)),
        !spec_check_auth(Some(t), None),
        p is Some && p->0 != t ==> !spec_check_auth(Some(t), p),
{
}

/// Law: a changed cell is reported exactly when the cells at its index
/// differ, and the reported indices are increasing and below `n`.
pub proof fn lemma_changed_cells<T: PartialEq>(old: Seq<T>, new: Seq<T>, n: int)
    requires
        n >= 0,
    ensures
        forall|k: int| 0 <= k < n ==> (spec_changed_cells(old, new, n).contains(k) <==> !old[k].eq_spec(&new[k])),
        forall|j: int, k: int|
            0 <= j < k < spec_changed_cells(old, new, n).len() ==> spec_changed_cells(old, new, n)[j]
                < spec_changed_cells(old, new, n)[k],
        forall|j: int|
            0 <= j < spec_changed_cells(old, new, n).len() ==> 0 <= #[trigger] spec_changed_cells(old, new, n)[j] < n,
    decreases n,
{
    if n > 0 {
        lemma_changed_cells(old, new, n - 1);
        let rest = spec_changed_cells(old, new, n - 1);
        let all = spec_changed_cells(old, new, n);
        assert forall|k: int| 0 <= k < n implies (all.contains(k) <==> !old[k].eq_spec(&new[k])) by {
            if k < n - 1 {
                if all.contains(k) {
                    let j = choose|j: int| 0 <= j < all.len() && all[j] == k;
                    if j < rest.len() {
                        assert(rest[j] == k);
                    }
                }
                if rest.contains(k) {
                    let j = choose|j: int| 0 <= j < rest.len() && rest[j] == k;
                    assert(all[j] == k);
                }
            } else {
                if !old[k].eq_spec(&new[k]) {
                    assert(all[all.len() - 1] == k);
                } else if all.contains(k) {
                    let j = choose|j: int| 0 <= j < all.len() && all[j] == k;
                    assert(rest[j] == k);
                }
            }
        }
    }
}

/// Law: a PJ64 connection's RAM is taken only while its save is in
/// gameplay; state packets other than knowledge are applied and followed by
/// a knowledge update, knowledge is applied without one; a cell update is
/// unexpected from PJ64, and goodbye stops the connection.
pub proof fn lemma_pj64_steps(gameplay: bool)
    ensures
        spec_pj64_step(Pj64PacketKind::RamInit { gameplay }) == (if gameplay {
            (Pj64Step::Apply { update_knowledge: true })
        } else {
            Pj64Step::Ignore
        }),
        spec_pj64_step(Pj64PacketKind::SaveInit) == (Pj64Step::Apply { update_knowledge: true }),
        spec_pj64_step(Pj64PacketKind::SaveDelta) == (Pj64Step::Apply { update_knowledge: true }),
        spec_pj64_step(Pj64PacketKind::ModelInit) == (Pj64Step::Apply { update_knowledge: true }),
        spec_pj64_step(Pj64PacketKind::ModelDelta) == (Pj64Step::Apply { update_knowledge: true }),
        spec_pj64_step(Pj64PacketKind::MmRamInit) == (Pj64Step::Apply { update_knowledge: true }),
        spec_pj64_step(Pj64PacketKind::KnowledgeInit) == (Pj64Step::Apply { update_knowledge: false }),
        spec_pj64_step(Pj64PacketKind::UpdateCell) == Pj64Step::Unexpected,
        spec_pj64_step(Pj64PacketKind::Goodbye) == Pj64Step::Stop,
{
}

} // verus!
