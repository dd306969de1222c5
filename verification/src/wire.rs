//! The textual form in which a snapshot travels to a live-view client.

use vstd::prelude::*;
use vstd::string::*;
use crate::number::{is_json_number, is_number};
use crate::snapshot::{MemoryData, MemoryView, SnapshotView, WsData};

verus! {

/// The character that writes the digit `d`.
pub open spec fn digit_char(d: int) -> char {
    "0123456789"@[d]
}

/// `n` written in base ten, without sign and without leading zeros.
pub open spec fn decimal(n: nat) -> Seq<char>
    decreases n,
{
    if n < 10 {
        seq![digit_char(n as int)]
    } else {
        decimal(n / 10).push(digit_char((n % 10) as int))
    }
}

/// The digit `d` as a text of one character.
fn digit_text(d: usize) -> (text: &'static str)
    requires
        d < 10,
    ensures
        text@ == seq![digit_char(d as int)],
{
    proof {
        reveal_strlit("0123456789");
    }
    "0123456789".substring_ascii(d, d + 1)
}

/// Appends `n` in base ten to `out`.
pub fn push_decimal(out: &mut String, n: u64)
    ensures
        final(out)@ == old(out)@ + decimal(n as nat),
    decreases n,
{
    if n >= 10 {
        push_decimal(out, n / 10);
    }
    out.append(digit_text((n % 10) as usize));
}

/// Which part of a snapshot a connection is sent.
#[derive(Clone, Copy, Debug, PartialEq, Eq, Structural)]
pub enum Projection {
    /// The whole snapshot: an object with the cores and the memory counters.
    Full,
    /// The usage of the cores alone: a bare array of numbers.
    CoresOnly,
}

/// Why a snapshot could not be written.
#[derive(Clone, Copy, Debug, PartialEq, Eq, Structural)]
pub enum EncodeError {
    /// There is not one usage text for each core.
    CountMismatch,
    /// The usage text at this place is neither a number nor `null`; those
    /// before it are.
    BadUsage(usize),
}

/// A usage percentage as it may stand in a message: a number, or `null` for a
/// reading that is not a finite number.
pub open spec fn is_usage_text(s: Seq<char>) -> bool {
    is_json_number(s) || s == "null"@
}

/// The items of a list, with a comma between each two.
pub open spec fn comma_separated(items: Seq<Seq<char>>) -> Seq<char>
    decreases items.len(),
{
    if items.len() == 0 {
        Seq::empty()
    } else if items.len() == 1 {
        items[0]
    } else {
        comma_separated(items.drop_last()) + ","@ + items.last()
    }
}

/// An array of `items` on the wire.
pub open spec fn array_text(items: Seq<Seq<char>>) -> Seq<char> {
    "["@ + comma_separated(items) + "]"@
}

/// One core on the wire: the pair of its index and its usage.
pub open spec fn core_text(index: u32, usage: Seq<char>) -> Seq<char> {
    "["@ + decimal(index as nat) + ","@ + usage + "]"@
}

/// Each core on the wire, in order.
pub open spec fn core_texts(cores: Seq<(u32, u32)>, usages: Seq<Seq<char>>) -> Seq<Seq<char>> {
    Seq::new(cores.len(), |i: int| core_text(cores[i].0, usages[i]))
}

/// The memory counters on the wire: an object of four numbers.
pub open spec fn memory_text(m: MemoryView) -> Seq<char> {
    "{\"total\":"@ + decimal(m.total as nat) + ",\"free\":"@ + decimal(m.free as nat)
        + ",\"available\":"@ + decimal(m.available as nat) + ",\"used\":"@ + decimal(
        m.used as nat,
    ) + "}"@
}

/// The message that carries `snapshot` under `projection`, where `usages`
/// holds the text of each core's usage percentage.
pub open spec fn message_text(
    projection: Projection,
    snapshot: SnapshotView,
    usages: Seq<Seq<char>>,
) -> Seq<char> {
    match projection {
        Projection::Full => "{\"cpu_data\":"@ + array_text(core_texts(snapshot.cores, usages))
            + ",\"mem_data\":"@ + memory_text(snapshot.memory) + "}"@,
        Projection::CoresOnly => array_text(usages),
    }
}

/// Some place in `usages` holds no usage text.
pub open spec fn has_bad_usage(usages: Seq<Seq<char>>) -> bool {
    exists|i: int| 0 <= i < usages.len() && !is_usage_text(#[trigger] usages[i])
}

/// The first place in `usages` that holds no usage text.
pub open spec fn first_bad_usage(usages: Seq<Seq<char>>) -> int {
    choose|i: int|
        0 <= i < usages.len() && !is_usage_text(#[trigger] usages[i]) && forall|j: int|
            0 <= j < i ==> is_usage_text(#[trigger] usages[j])
}

/// What writing a snapshot comes to: its message, if `usages` holds one usage
/// text for each core, and else what is wrong with `usages`.
pub open spec fn encoding(
    projection: Projection,
    snapshot: SnapshotView,
    usages: Seq<Seq<char>>,
) -> Result<Seq<char>, EncodeError> {
    if usages.len() != snapshot.cores.len() {
        Err(EncodeError::CountMismatch)
    } else if has_bad_usage(usages) {
        Err(EncodeError::BadUsage(first_bad_usage(usages) as usize))
    } else {
        Ok(message_text(projection, snapshot, usages))
    }
}

/// Whether `text` may stand for a usage percentage in a message.
pub fn is_usage(text: &str) -> (r: bool)
    ensures
        r == is_usage_text(text@),
{
    if is_number(text) {
        return true;
    }
    proof {
        reveal_strlit("null");
    }
    let r = text.unicode_len() == 4 && text.get_char(0) == 'n' && text.get_char(1) == 'u'
        && text.get_char(2) == 'l' && text.get_char(3) == 'l';
    assert(r == (text@ =~= "null"@));
    r
}

/// Appends the memory counters as an object of four numbers.
fn push_memory(out: &mut String, memory: MemoryData)
    ensures
        final(out)@ == old(out)@ + memory_text(memory@),
{
    out.append("{\"total\":");
    push_decimal(out, memory.total());
    out.append(",\"free\":");
    push_decimal(out, memory.free());
    out.append(",\"available\":");
    push_decimal(out, memory.available());
    out.append(",\"used\":");
    push_decimal(out, memory.used());
    out.append("}");
}

/// The text of each core, in order.
fn core_items(cores: &Vec<(u32, u32)>, usage_texts: &Vec<String>) -> (items: Vec<String>)
    requires
        usage_texts.len() == cores.len(),
    ensures
        items.deep_view() == core_texts(cores@, usage_texts.deep_view()),
{
    let mut items: Vec<String> = Vec::with_capacity(cores.len());
    let mut i: usize = 0;
    while i < cores.len()
        invariant
            i <= cores.len(),
            usage_texts.len() == cores.len(),
            items.len() == i,
            items.deep_view() == core_texts(cores@, usage_texts.deep_view()).take(i as int),
        decreases cores.len() - i,
    {
        let ghost earlier = items.deep_view();
        let mut item = String::from_str("[");
        push_decimal(&mut item, cores[i].0 as u64);
        item.append(",");
        item.append(usage_texts[i].as_str());
        item.append("]");
        items.push(item);
        proof {
            let all = core_texts(cores@, usage_texts.deep_view());
            assert forall|k: int| 0 <= k <= i implies items.deep_view()[k] == all[k] by {
                if k < i {
                    assert(earlier[k] == all.take(i as int)[k]);
                }
            }
        }
        i += 1;
    }
    items
}

/// Appends `items` as an array.
fn push_array(out: &mut String, items: &Vec<String>)
    ensures
        final(out)@ == old(out)@ + array_text(items.deep_view()),
{
    let ghost texts = items.deep_view();
    out.append("[");
    let mut i: usize = 0;
    while i < items.len()
        invariant
            i <= items.len(),
            texts == items.deep_view(),
            out@ == old(out)@ + "["@ + comma_separated(texts.take(i as int)),
        decreases items.len() - i,
    {
        if i > 0 {
            out.append(",");
        }
        out.append(items[i].as_str());
        proof {
            assert(texts.take(i + 1).drop_last() == texts.take(i as int));
        }
        i += 1;
    }
    proof {
        assert(texts.take(i as int) == texts);
    }
    out.append("]");
}

/// The first place in `usage_texts` that holds no usage text, if there is one.
fn find_bad_usage(usage_texts: &Vec<String>) -> (found: Option<usize>)
    ensures
        match found {
            Some(i) => has_bad_usage(usage_texts.deep_view()) && i == first_bad_usage(
                usage_texts.deep_view(),
            ),
            None => !has_bad_usage(usage_texts.deep_view()),
        },
{
    let ghost usages = usage_texts.deep_view();
    let mut i: usize = 0;
    while i < usage_texts.len()
        invariant
            i <= usage_texts.len(),
            usages == usage_texts.deep_view(),
            forall|j: int| 0 <= j < i ==> is_usage_text(#[trigger] usages[j]),
        decreases usage_texts.len() - i,
    {
        if !is_usage(usage_texts[i].as_str()) {
            assert(!is_usage_text(usages[i as int]));
            return Some(i);
        }
        i += 1;
    }
    None
}

/// Writes the message that carries `snapshot` to a client.
///
/// `usage_texts` holds, for each core in order, its usage percentage as JSON
/// writes it. The message is written only if there is one text for each core
/// and each is a number or `null`.
pub fn encode(projection: Projection, snapshot: &WsData, usage_texts: &Vec<String>) -> (r: Result<
    String,
    EncodeError,
>)
    ensures
        r is Ok <==> usage_texts.len() == snapshot@.cores.len() && !has_bad_usage(
            usage_texts.deep_view(),
        ),
        encoding(projection, snapshot@, usage_texts.deep_view()) == match r {
            Ok(text) => Ok(text@),
            Err(e) => Err(e),
        },
{
    let cores = snapshot.cores();
    if usage_texts.len() != cores.len() {
        return Err(EncodeError::CountMismatch);
    }
    if let Some(i) = find_bad_usage(usage_texts) {
        return Err(EncodeError::BadUsage(i));
    }
    let mut out = String::new();
    match projection {
        Projection::Full => {
            out.append("{\"cpu_data\":");
            push_array(&mut out, &core_items(cores, usage_texts));
            out.append(",\"mem_data\":");
            push_memory(&mut out, snapshot.memory());
            out.append("}");
        },
        Projection::CoresOnly => {
            push_array(&mut out, usage_texts);
        },
    }
    Ok(out)
}

} // verus!
