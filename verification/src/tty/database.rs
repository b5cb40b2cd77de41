//! The capability database of the `terminfo` crate, as far as this library
//! reads it: string capabilities by name, and their expansion.

use terminfo::expand::{Context, Parameter};
use terminfo::{Database, Expand, Value};
use vstd::prelude::*;

verus! {

/// The type `terminfo::Database`. The library carries a database along and
/// hands it to the lookup; it never looks inside.
#[verifier::external_type_specification]
#[verifier::external_body]
pub struct ExDatabase(terminfo::Database);

/// The string capabilities of a database: what `Database::raw` finds under
/// each name, where that is a string.
pub uninterp spec fn string_capabilities(db: Database) -> Map<Seq<char>, Seq<u8>>;

/// What `Expand::expand` writes for a template and its numeric parameters,
/// evaluated in a fresh context, or `None` where it reports an error.
pub uninterp spec fn expansion(template: Seq<u8>, params: Seq<i32>) -> Option<Seq<u8>>;

/// Looks a capability up with `Database::raw`. The result is the
/// capability's bytes where the database holds a string under `name`, and
/// `None` where it holds nothing, a number or a boolean.
#[verifier::external_body]
pub(crate) fn capability_string(db: &Database, name: &str) -> (r: Option<Vec<u8>>)
    ensures
        match r {
            Some(bytes) => string_capabilities(*db).contains_key(name@) && string_capabilities(
                *db,
            )[name@] == bytes@,
            None => !string_capabilities(*db).contains_key(name@),
        },
{
    match db.raw(name) {
        Some(Value::String(bytes)) => Some(bytes.clone()),
        Some(Value::Number(_)) => None,
        Some(Value::True) => None,
        None => None,
    }
}

/// The largest number of items of a template that can make a number larger.
pub const MAX_GROWING_ITEMS: usize = 10;

/// The largest number of digits that a constant of a template may have.
pub const MAX_DIGITS: usize = 6;

/// The bound on the size of a parameter: two to the power of twenty.
pub const PARAMETER_BOUND: i32 = 0x10_0000;

/// Whether the byte behind a `%` asks for arithmetic whose result can be
/// larger than its operands: `+`, `-`, `/`, `m` or `i`.
pub open spec fn is_growing_operator(b: u8) -> bool {
    b == 0x2B || b == 0x2D || b == 0x2F || b == 0x6D || b == 0x69
}

/// Whether the byte behind a `%` makes an item of two bytes whose result is
/// no larger than its operands: a bitwise or logical operator or a
/// comparison (`&`, `|`, `^`, `~`, `A`, `O`, `!`, `=`, `>`, `<`), a part of a
/// conditional (`?`, `t`, `e`, `;`), a print without flag, width and
/// precision (`d`, `o`, `x`, `X`, `s`, `c`), the length `l`, or a second
/// `%`.
pub open spec fn is_plain_operator(b: u8) -> bool {
    ||| b == 0x26 || b == 0x7C || b == 0x5E || b == 0x7E || b == 0x41 || b == 0x4F
    ||| b == 0x21 || b == 0x3D || b == 0x3E || b == 0x3C
    ||| b == 0x3F || b == 0x74 || b == 0x65 || b == 0x3B
    ||| b == 0x64 || b == 0x6F || b == 0x78 || b == 0x58 || b == 0x73 || b == 0x63
    ||| b == 0x6C || b == 0x25
}

/// Whether `b` is an ASCII letter.
pub open spec fn is_letter(b: u8) -> bool {
    0x61 <= b <= 0x7A || 0x41 <= b <= 0x5A
}

/// Where the run of ASCII digits that starts at `from` ends.
pub open spec fn digits_end(template: Seq<u8>, from: int) -> int
    decreases template.len() - from,
{
    if 0 <= from < template.len() && 0x30 <= template[from] <= 0x39 {
        digits_end(template, from + 1)
    } else {
        from
    }
}

/// The length of the item that starts at index `i`, or zero where none of
/// the items that the library lets through starts there. A byte other than
/// `%` is an item of its own. Behind a `%` stands an operator of one byte, a
/// character constant `'c'`, an integer constant `{n}` of at most
/// [`MAX_DIGITS`] digits, a parameter `p1` to `p9`, or a variable `P` or `g`
/// with its letter. A product, and a print with a flag, a width or a
/// precision, are not let through.
pub open spec fn item_length(template: Seq<u8>, i: int) -> int {
    if template[i] != 0x25 {
        1
    } else if i + 1 >= template.len() {
        0
    } else {
        let b = template[i + 1];
        if is_growing_operator(b) || is_plain_operator(b) {
            2
        } else if b == 0x27 {
            if i + 3 < template.len() && template[i + 3] == 0x27 {
                4
            } else {
                0
            }
        } else if b == 0x70 {
            if i + 2 < template.len() && 0x31 <= template[i + 2] <= 0x39 {
                3
            } else {
                0
            }
        } else if b == 0x50 || b == 0x67 {
            if i + 2 < template.len() && is_letter(template[i + 2]) {
                3
            } else {
                0
            }
        } else if b == 0x7B {
            let end = digits_end(template, i + 2);
            if end < template.len() && template[end] == 0x7D && end - (i + 2) <= MAX_DIGITS {
                end + 1 - i
            } else {
                0
            }
        } else {
            0
        }
    }
}

/// Whether the item that starts at index `i` can make a number larger.
pub open spec fn item_grows(template: Seq<u8>, i: int) -> bool {
    template[i] == 0x25 && i + 1 < template.len() && is_growing_operator(template[i + 1])
}

/// Whether the template is made of items from index `i` on, no more than
/// `budget` of which can make a number larger.
pub open spec fn items_accepted(template: Seq<u8>, i: int, budget: int) -> bool
    decreases template.len() - i,
{
    if 0 <= i < template.len() {
        let n = item_length(template, i);
        if n <= 0 {
            false
        } else if item_grows(template, i) {
            budget > 0 && items_accepted(template, i + n, budget - 1)
        } else {
            items_accepted(template, i + n, budget)
        }
    } else {
        true
    }
}

/// Whether the library evaluates a template with the given parameters.
///
/// The template must be made of items throughout, for the evaluation does
/// not get past a `%` that opens no item.
///
/// The arithmetic of the evaluation must stay within 32 bits whatever the
/// template computes. Every number that the evaluation starts from is below
/// two to the power of twenty in size: the parameters by the last clause, a
/// constant of the template because it has at most six digits. Bitwise and
/// logical items and comparisons give nothing larger than their operands.
/// An item that adds, subtracts, divides, takes a remainder or increments
/// gives at most twice the size, and there are at most ten of them; a product
/// is not let through at all. So no number reaches two to the power of 31.
///
/// A print must be plain, for the padding of a number to a width goes by a
/// floating-point logarithm and may differ from machine to machine.
pub open spec fn evaluable(template: Seq<u8>, params: Seq<i32>) -> bool {
    &&& items_accepted(template, 0, MAX_GROWING_ITEMS as int)
    &&& forall|k: int|
        0 <= k < params.len() ==> -PARAMETER_BOUND < #[trigger] params[k] < PARAMETER_BOUND
}

/// Finds the end of the run of digits that starts at `from`.
fn digits_end_from(template: &[u8], from: usize) -> (end: usize)
    requires
        from <= template@.len(),
    ensures
        end == digits_end(template@, from as int),
        from <= end <= template@.len(),
{
    let mut end: usize = from;
    while end < template.len() && 0x30 <= template[end] && template[end] <= 0x39
        invariant
            from <= end <= template@.len(),
            digits_end(template@, end as int) == digits_end(template@, from as int),
        decreases template@.len() - end,
    {
        end += 1;
    }
    end
}

/// Computes [`item_length`].
pub fn item_length_at(template: &[u8], i: usize) -> (n: usize)
    requires
        i < template@.len(),
    ensures
        n == item_length(template@, i as int),
        n <= template@.len() - i,
{
    let len = template.len();
    if template[i] != 0x25 {
        return 1;
    }
    if len - i < 2 {
        return 0;
    }
    let b = template[i + 1];
    if b == 0x2B || b == 0x2D || b == 0x2F || b == 0x6D || b == 0x69 {
        2
    } else if b == 0x26 || b == 0x7C || b == 0x5E || b == 0x7E || b == 0x41 || b == 0x4F || b
        == 0x21 || b == 0x3D || b == 0x3E || b == 0x3C || b == 0x3F || b == 0x74 || b == 0x65 || b
        == 0x3B || b == 0x64 || b == 0x6F || b == 0x78 || b == 0x58 || b == 0x73 || b == 0x63 || b
        == 0x6C || b == 0x25 {
        2
    } else if b == 0x27 {
        if len - i > 3 && template[i + 3] == 0x27 {
            4
        } else {
            0
        }
    } else if b == 0x70 {
        if len - i > 2 && 0x31 <= template[i + 2] && template[i + 2] <= 0x39 {
            3
        } else {
            0
        }
    } else if b == 0x50 || b == 0x67 {
        if len - i > 2 && ((0x61 <= template[i + 2] && template[i + 2] <= 0x7A) || (0x41
            <= template[i + 2] && template[i + 2] <= 0x5A)) {
            3
        } else {
            0
        }
    } else if b == 0x7B {
        let end = digits_end_from(template, i + 2);
        if end < len && template[end] == 0x7D && end - (i + 2) <= MAX_DIGITS {
            end + 1 - i
        } else {
            0
        }
    } else {
        0
    }
}

/// Decides [`evaluable`].
#[verifier::loop_isolation(false)]
pub fn is_evaluable(template: &[u8], params: &[i32]) -> (b: bool)
    ensures
        b == evaluable(template@, params@),
{
    let mut k: usize = 0;
    while k < params.len()
        invariant
            k <= params@.len(),
            forall|j: int|
                0 <= j < k ==> -PARAMETER_BOUND < #[trigger] params@[j] < PARAMETER_BOUND,
        decreases params@.len() - k,
    {
        if params[k] <= -PARAMETER_BOUND || params[k] >= PARAMETER_BOUND {
            return false;
        }
        k += 1;
    }
    let len = template.len();
    let mut budget: usize = MAX_GROWING_ITEMS;
    let mut i: usize = 0;
    while i < len
        invariant
            i <= len,
            len == template@.len(),
            budget <= MAX_GROWING_ITEMS,
            items_accepted(template@, 0, MAX_GROWING_ITEMS as int) == items_accepted(
                template@,
                i as int,
                budget as int,
            ),
        decreases len - i,
    {
        let n = item_length_at(template, i);
        if n == 0 {
            return false;
        }
        if n == 2 && template[i] == 0x25 {
            let b = template[i + 1];
            if b == 0x2B || b == 0x2D || b == 0x2F || b == 0x6D || b == 0x69 {
                if budget == 0 {
                    return false;
                }
                budget -= 1;
            }
        }
        i += n;
    }
    true
}

/// Expands a template with `Expand::expand` of `terminfo`, from numeric
/// parameters and in a fresh context, into a new vector. The result is what
/// that call writes, and `None` where it reports an error. The `requires`
/// keeps away the templates on which that function does not come to an end,
/// the templates and parameters on which its arithmetic can leave the range
/// of `i32`, and those whose result depends on floating-point rounding.
#[verifier::external_body]
pub(crate) fn expand_template(template: &[u8], params: &[i32]) -> (r: Option<Vec<u8>>)
    requires
        evaluable(template@, params@),
    ensures
        match r {
            Some(bytes) => expansion(template@, params@) == Some(bytes@),
            None => expansion(template@, params@).is_none(),
        },
{
    let arguments: Vec<Parameter> = params.iter().map(|n| Parameter::Number(*n)).collect();
    let mut output = Vec::new();
    match template.expand(&mut output, &arguments, &mut Context::default()) {
        Ok(()) => Some(output),
        Err(_) => None,
    }
}

} // verus!
