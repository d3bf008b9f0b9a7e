//! Text helpers shared by the request builders

use vstd::prelude::*;
use vstd::string::StringExecFns;

verus! {

/// `parts` joined with `separator` between neighbours: no leading and no trailing separator.
pub open spec fn joined(parts: Seq<Seq<char>>, separator: Seq<char>) -> Seq<char>
    decreases parts.len(),
{
    if parts.len() == 0 {
        Seq::empty()
    } else if parts.len() == 1 {
        parts[0]
    } else {
        joined(parts.drop_last(), separator) + separator + parts.last()
    }
}

/// The views of a run of string slices.
pub open spec fn slice_views(parts: Seq<&str>) -> Seq<Seq<char>> {
    Seq::new(parts.len(), |i: int| parts[i]@)
}

/// The views of a run of owned strings.
pub open spec fn string_views(parts: Seq<String>) -> Seq<Seq<char>> {
    Seq::new(parts.len(), |i: int| parts[i]@)
}

/// The decimal digit that stands for `d`, for `d` below ten.
pub open spec fn digit_char(d: nat) -> char {
    if d == 0 {
        '0'
    } else if d == 1 {
        '1'
    } else if d == 2 {
        '2'
    } else if d == 3 {
        '3'
    } else if d == 4 {
        '4'
    } else if d == 5 {
        '5'
    } else if d == 6 {
        '6'
    } else if d == 7 {
        '7'
    } else if d == 8 {
        '8'
    } else {
        '9'
    }
}

/// `n` written in base ten without leading zeros; zero is written `0`.
pub open spec fn decimal(n: nat) -> Seq<char>
    decreases n,
{
    if n < 10 {
        seq![digit_char(n)]
    } else {
        decimal(n / 10).push(digit_char(n % 10))
    }
}

/// `text` with every space replaced by a plus sign.
pub open spec fn plus_for_spaces(text: Seq<char>) -> Seq<char> {
    Seq::new(text.len(), |i: int| if text[i] == ' ' { '+' } else { text[i] })
}

/// A value that is handed to the server by a name.
pub trait Named {
    /// The name of the value.
    spec fn name(&self) -> Seq<char>;

    /// Writes the name of the value.
    fn to_string(&self) -> (name: String)
        ensures
            name@ == self.name(),
    ;
}

/// The names of a run of values.
pub open spec fn names<T: Named>(items: Seq<T>) -> Seq<Seq<char>> {
    Seq::new(items.len(), |i: int| items[i].name())
}

/// What `str::to_lowercase` gives for a text.
pub uninterp spec fn lowercase(text: Seq<char>) -> Seq<char>;

/// `String::push`: the character is appended to the end of the string.
#[verifier::external_body]
pub(crate) fn push_char(target: &mut String, c: char)
    ensures
        final(target)@ == old(target)@.push(c),
{
    target.push(c)
}

/// `str::to_lowercase`: the lowercase equivalent of the text, as a new string.
#[verifier::external_body]
pub(crate) fn to_lowercase(text: &str) -> (lowered: String)
    ensures
        lowered@ == lowercase(text@),
{
    text.to_lowercase()
}

/// An owned copy of a string slice.
pub fn owned(text: &str) -> (copy: String)
    ensures
        copy@ == text@,
{
    text.to_owned()
}

/// Joins string slices with a separator.
pub fn join(parts: &[&str], separator: &str) -> (text: String)
    ensures
        text@ == joined(slice_views(parts@), separator@),
{
    let mut text = String::new();
    let mut i: usize = 0;
    while i < parts.len()
        invariant
            i <= parts@.len(),
            text@ == joined(slice_views(parts@).take(i as int), separator@),
        decreases parts@.len() - i,
    {
        proof {
            let views = slice_views(parts@);
            assert(views.take(i as int + 1).drop_last() == views.take(i as int));
            assert(views.take(i as int + 1).last() == parts@[i as int]@);
        }
        if i > 0 {
            text.append(separator);
        }
        text.append(parts[i]);
        i += 1;
    }
    proof {
        assert(slice_views(parts@).take(i as int) == slice_views(parts@));
    }
    text
}

/// Joins owned strings with a separator.
pub fn join_strings(parts: &Vec<String>, separator: &str) -> (text: String)
    ensures
        text@ == joined(string_views(parts@), separator@),
{
    let mut text = String::new();
    let mut i: usize = 0;
    while i < parts.len()
        invariant
            i <= parts@.len(),
            text@ == joined(string_views(parts@).take(i as int), separator@),
        decreases parts@.len() - i,
    {
        proof {
            let views = string_views(parts@);
            assert(views.take(i as int + 1).drop_last() == views.take(i as int));
            assert(views.take(i as int + 1).last() == parts@[i as int]@);
        }
        if i > 0 {
            text.append(separator);
        }
        text.append(parts[i].as_str());
        i += 1;
    }
    proof {
        assert(string_views(parts@).take(i as int) == string_views(parts@));
    }
    text
}

/// Joins the names of values with a separator.
pub fn join_names<T: Named>(items: &[T], separator: &str) -> (text: String)
    ensures
        text@ == joined(names(items@), separator@),
{
    let mut text = String::new();
    let mut i: usize = 0;
    while i < items.len()
        invariant
            i <= items@.len(),
            text@ == joined(names(items@).take(i as int), separator@),
        decreases items@.len() - i,
    {
        proof {
            let all = names(items@);
            assert(all.take(i as int + 1).drop_last() == all.take(i as int));
            assert(all.take(i as int + 1).last() == items@[i as int].name());
        }
        if i > 0 {
            text.append(separator);
        }
        let name = items[i].to_string();
        text.append(name.as_str());
        i += 1;
    }
    proof {
        assert(names(items@).take(i as int) == names(items@));
    }
    text
}

/// The character of one decimal digit.
fn digit(d: usize) -> (c: char)
    requires
        d < 10,
    ensures
        c == digit_char(d as nat),
{
    if d == 0 {
        '0'
    } else if d == 1 {
        '1'
    } else if d == 2 {
        '2'
    } else if d == 3 {
        '3'
    } else if d == 4 {
        '4'
    } else if d == 5 {
        '5'
    } else if d == 6 {
        '6'
    } else if d == 7 {
        '7'
    } else if d == 8 {
        '8'
    } else {
        '9'
    }
}

/// Writes a number in base ten, as `usize::to_string` does.
pub fn to_decimal(n: usize) -> (text: String)
    ensures
        text@ == decimal(n as nat),
    decreases n,
{
    if n < 10 {
        let mut text = String::new();
        push_char(&mut text, digit(n));
        text
    } else {
        let mut text = to_decimal(n / 10);
        push_char(&mut text, digit(n % 10));
        text
    }
}

/// A number below a hundred thousand is written with one to five digits.
pub proof fn lemma_decimal_of_five_digits(n: nat)
    requires
        n < 100_000,
    ensures
        1 <= decimal(n).len() <= 5,
{
    reveal_with_fuel(decimal, 6);
}

/// Replaces every space of a search term by a plus sign.
pub fn replace_spaces(term: &str) -> (text: String)
    ensures
        text@ == plus_for_spaces(term@),
{
    let mut text = String::new();
    for c in it: term.chars()
        invariant
            it.seq() == term@,
            text@ == plus_for_spaces(term@).take(it.index() as int),
    {
        if c == ' ' {
            push_char(&mut text, '+');
        } else {
            push_char(&mut text, c);
        }
        proof {
            let i = it.index() as int;
            assert(plus_for_spaces(term@).take(i + 1) == plus_for_spaces(term@).take(i).push(
                plus_for_spaces(term@)[i],
            ));
        }
    }
    proof {
        assert(plus_for_spaces(term@).take(term@.len() as int) == plus_for_spaces(term@));
    }
    text
}

} // verus!
