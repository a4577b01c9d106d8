//! Device discovery: which of the sound subsystem's device hints become
//! devices, and under which names.
use vstd::prelude::*;
use vstd::string::*;
use crate::channels::ChannelSet;
use crate::session::AudioDevice;

verus! {

/// One device hint of the sound subsystem.
#[derive(Debug)]
pub struct Hint {
    /// The device's name (such as "default" or "hw:Card1,0").
    pub name: String,
    /// First character of the direction tag ('I' or 'O'); `None` where the
    /// device has no tag and so works both ways.
    pub ioid: Option<char>,
    /// The multi-line human description of the device.
    pub desc: String,
}

/// A hint selected to be opened, and the name it will carry.
#[derive(Debug)]
pub struct Candidate {
    /// Index of the hint in the hint list.
    pub hint: usize,
    /// Display name of the device.
    pub name: String,
}

/// Whether `s` starts with `p`.
pub open spec fn has_prefix(s: Seq<char>, p: Seq<char>) -> bool {
    p.len() <= s.len() && s.subrange(0, p.len() as int) == p
}

/// Hints that are never offered: duplicates with a "sysdefault" prefix, and
/// "null", which cannot be polled.
pub open spec fn is_skipped(name: Seq<char>) -> bool {
    has_prefix(name, "sysdefault"@) || name == "null"@
}

/// Whether a device with this direction tag serves the direction asked
/// for.
pub open spec fn serves(ioid: Option<char>, input: bool) -> bool {
    match ioid {
        None => true,
        Some(c) => if input {
            c == 'I'
        } else {
            c == 'O'
        },
    }
}

/// The description on one line: each newline becomes ": ".
pub open spec fn one_line(s: Seq<char>) -> Seq<char>
    decreases s.len(),
{
    if s.len() == 0 {
        Seq::empty()
    } else if s.last() == '\n' {
        one_line(s.drop_last()) + ": "@
    } else {
        one_line(s.drop_last()).push(s.last())
    }
}

/// The name under which a hint is offered.
pub open spec fn display_name(h: Hint) -> Seq<char> {
    if h.name@ == "default"@ {
        "Default"@
    } else {
        one_line(h.desc@)
    }
}

/// Whether a hint is offered for the direction asked for.
pub open spec fn admitted(h: Hint, input: bool) -> bool {
    !is_skipped(h.name@) && serves(h.ioid, input)
}

/// The hints offered for a direction, in order: their indices and names.
pub open spec fn selection(hints: Seq<Hint>, input: bool) -> Seq<(int, Seq<char>)>
    decreases hints.len(),
{
    if hints.len() == 0 {
        Seq::empty()
    } else {
        let rest = selection(hints.drop_last(), input);
        let i = hints.len() - 1;
        if admitted(hints[i], input) {
            rest.push((i, display_name(hints[i])))
        } else {
            rest
        }
    }
}

/// `r` lists, in order, the hints offered for the direction, each with its
/// index and display name.
pub open spec fn selects(hints: Seq<Hint>, input: bool, r: Seq<Candidate>) -> bool {
    &&& r.len() == selection(hints, input).len()
    &&& forall|k: int|
        0 <= k < r.len() ==> (r[k].hint as int, r[k].name@) == #[trigger] selection(hints, input)[k]
    &&& forall|k: int|
        0 <= k < r.len() ==> (#[trigger] r[k]).hint < hints.len() && admitted(
            hints[r[k].hint as int],
            input,
        )
}

/// Whether `s` starts with `p`.
fn starts_with(s: &str, p: &str) -> (r: bool)
    ensures
        r == has_prefix(s@, p@),
{
    let n: usize = p.unicode_len();
    if s.unicode_len() < n {
        return false;
    }
    let mut i: usize = 0;
    while i < n
        invariant
            n == p@.len(),
            n <= s@.len(),
            i <= n,
            forall|j: int| 0 <= j < i ==> s@[j] == p@[j],
        decreases n - i,
    {
        if s.get_char(i) != p.get_char(i) {
            assert(s@.subrange(0, n as int)[i as int] != p@[i as int]);
            return false;
        }
        i = i + 1;
    }
    assert(s@.subrange(0, n as int) =~= p@);
    true
}

/// Whether `s` and `p` hold the same text.
fn same_text(s: &str, p: &str) -> (r: bool)
    ensures
        r == (s@ == p@),
{
    if s.unicode_len() != p.unicode_len() {
        return false;
    }
    let b = starts_with(s, p);
    proof {
        if s@ == p@ {
            assert(s@.subrange(0, p@.len() as int) =~= p@);
        }
        if b {
            assert(s@ =~= s@.subrange(0, p@.len() as int));
        }
    }
    b
}

/// Whether a hint with this name is never offered.
pub fn skipped(name: &str) -> (r: bool)
    ensures
        r == is_skipped(name@),
{
    starts_with(name, "sysdefault") || same_text(name, "null")
}

/// Puts a description on one line: each newline becomes ": ".
pub fn single_line(s: &str) -> (r: String)
    ensures
        r@ == one_line(s@),
{
    let n: usize = s.unicode_len();
    let mut out = String::new();
    let mut start: usize = 0;
    let mut i: usize = 0;
    proof {
        reveal_strlit(": ");
        assert(s@.subrange(0, 0) =~= Seq::<char>::empty());
    }
    while i < n
        invariant
            n == s@.len(),
            start <= i <= n,
            one_line(s@.subrange(0, i as int)) == out@ + s@.subrange(start as int, i as int),
        decreases n - i,
    {
        let c = s.get_char(i);
        let ghost prefix = s@.subrange(0, i as int + 1);
        assert(prefix.drop_last() =~= s@.subrange(0, i as int));
        if c == '\n' {
            out.append(s.substring_char(start, i));
            out.append(": ");
            start = i + 1;
            assert(s@.subrange(start as int, start as int) =~= Seq::<char>::empty());
            assert(out@ =~= out@ + s@.subrange(start as int, i as int + 1));
        } else {
            assert(s@.subrange(start as int, i as int + 1) =~= s@.subrange(
                start as int,
                i as int,
            ).push(c));
        }
        i = i + 1;
    }
    out.append(s.substring_char(start, n));
    assert(s@.subrange(0, n as int) =~= s@);
    out
}

/// The name a hint is offered under: "Default" for the generic default
/// device, else its description on one line.
pub fn hint_name(h: &Hint) -> (r: String)
    ensures
        r@ == display_name(*h),
{
    if same_text(h.name.as_str(), "default") {
        String::from_str("Default")
    } else {
        single_line(h.desc.as_str())
    }
}

/// Whether a device with this direction tag serves the direction asked
/// for.
pub fn serves_direction(ioid: Option<char>, input: bool) -> (r: bool)
    ensures
        r == serves(ioid, input),
{
    match ioid {
        None => true,
        Some(c) => if input {
            c == 'I'
        } else {
            c == 'O'
        },
    }
}

/// Selects, in order, the hints to open for a direction (`input`: capture,
/// else playback): none named "null" or starting with "sysdefault", and
/// only those whose tag serves the direction.
pub fn candidates(hints: &Vec<Hint>, input: bool) -> (r: Vec<Candidate>)
    ensures
        r@.len() == selection(hints@, input).len(),
        forall|k: int|
            0 <= k < r@.len() ==> (r@[k].hint as int, r@[k].name@) == #[trigger] selection(
                hints@,
                input,
            )[k],
        forall|k: int|
            0 <= k < r@.len() ==> (#[trigger] r@[k]).hint < hints@.len() && admitted(
                hints@[r@[k].hint as int],
                input,
            ),
{
    let mut r: Vec<Candidate> = Vec::new();
    let mut i: usize = 0;
    while i < hints.len()
        invariant
            i <= hints@.len(),
            r@.len() == selection(hints@.subrange(0, i as int), input).len(),
            forall|k: int|
                0 <= k < r@.len() ==> (r@[k].hint as int, r@[k].name@) == #[trigger] selection(
                    hints@.subrange(0, i as int),
                    input,
                )[k],
            forall|k: int|
                0 <= k < r@.len() ==> (#[trigger] r@[k]).hint < i && admitted(
                    hints@[r@[k].hint as int],
                    input,
                ),
        decreases hints@.len() - i,
    {
        let h = &hints[i];
        let ghost upto = hints@.subrange(0, i as int + 1);
        assert(upto.drop_last() =~= hints@.subrange(0, i as int));
        if !skipped(h.name.as_str()) && serves_direction(h.ioid, input) {
            let name = hint_name(h);
            assert(admitted(hints@[i as int], input));
            let ghost before = r@;
            r.push(Candidate { hint: i, name });
            assert(forall|k: int| 0 <= k < before.len() ==> r@[k] == before[k]);
            assert(r@[before.len() as int].hint == i);
        }
        i = i + 1;
    }
    assert(hints@.subrange(0, hints@.len() as int) =~= hints@);
    r
}

/// The devices that opened, in order: the name and channel probe of each
/// candidate whose entry in `opened` is `Some`.
pub open spec fn opened_devices(
    candidates: Seq<Candidate>,
    opened: Seq<Option<[bool; 8]>>,
) -> Seq<(Seq<char>, [bool; 8])>
    decreases candidates.len(),
{
    if candidates.len() == 0 {
        Seq::empty()
    } else {
        let i = candidates.len() - 1;
        let rest = opened_devices(candidates.drop_last(), opened);
        match opened[i] {
            Some(p) => rest.push((candidates[i].name@, p)),
            None => rest,
        }
    }
}

/// The devices that opened: `opened[k]` holds the channel probe of the
/// `k`-th candidate, or `None` where it could not be opened or negotiated
/// (such a device is left out, silently).
pub fn devices(candidates: &Vec<Candidate>, opened: &Vec<Option<[bool; 8]>>) -> (r: Vec<
    AudioDevice,
>)
    requires
        opened@.len() == candidates@.len(),
    ensures
        r@.len() == opened_devices(candidates@, opened@).len(),
        forall|k: int|
            0 <= k < r@.len() ==> (#[trigger] r@[k]).descriptors == 0 && !r@[k].started && (
            r@[k].name@, r@[k].supported.accepted) == opened_devices(candidates@, opened@)[k],
{
    let mut r: Vec<AudioDevice> = Vec::new();
    let mut k: usize = 0;
    while k < candidates.len()
        invariant
            opened@.len() == candidates@.len(),
            k <= candidates@.len(),
            r@.len() == opened_devices(candidates@.subrange(0, k as int), opened@).len(),
            forall|j: int|
                0 <= j < r@.len() ==> (#[trigger] r@[j]).descriptors == 0 && !r@[j].started && (
                r@[j].name@, r@[j].supported.accepted) == opened_devices(
                    candidates@.subrange(0, k as int),
                    opened@,
                )[j],
        decreases candidates@.len() - k,
    {
        let ghost upto = candidates@.subrange(0, k as int + 1);
        assert(upto.drop_last() =~= candidates@.subrange(0, k as int));
        if let Some(probes) = opened[k] {
            let name = candidates[k].name.clone();
            let d = AudioDevice::new(name, ChannelSet::from_probes(probes));
            r.push(d);
        }
        k = k + 1;
    }
    assert(candidates@.subrange(0, candidates@.len() as int) =~= candidates@);
    r
}

} // verus!
