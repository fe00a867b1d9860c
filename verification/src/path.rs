use crate::environment::Error;
use crate::environment::ENVSXP;
use crate::environment::LISTSXP;
use crate::environment::VECSXP;
use crate::wire::string_views;
use vstd::prelude::*;
use vstd::string::*;
use vstd::utf8::*;

verus! {

/// Every byte is a decimal digit, and there is at least one.
pub open spec fn spec_is_digits(s: Seq<u8>) -> bool {
    s.len() > 0 && forall|i: int| 0 <= i < s.len() ==> 48 <= #[trigger] s[i] <= 57
}

/// The number that a series of decimal digits stands for.
pub open spec fn spec_digits_value(s: Seq<u8>) -> nat
    decreases s.len(),
{
    if s.len() == 0 {
        0
    } else {
        spec_digits_value(s.drop_last()) * 10 + (s.last() - 48) as nat
    }
}

/// The digits of a number's text: what follows a sign, or all of it.
pub open spec fn spec_digits_of(s: Seq<u8>) -> Seq<u8> {
    if s.len() > 0 && (s[0] == 45 || s[0] == 43) {
        s.skip(1)
    } else {
        s
    }
}

/// The integer that a text stands for: an optional sign, then decimal digits
/// and nothing else. There is none where the text is not of that form or
/// the number does not fit.
pub open spec fn spec_parse_index(s: Seq<u8>) -> Option<isize> {
    let digits = spec_digits_of(s);
    let magnitude = spec_digits_value(digits) as int;
    let value = if s.len() > 0 && s[0] == 45 {
        -magnitude
    } else {
        magnitude
    };
    if spec_is_digits(digits) && isize::MIN <= value <= isize::MAX {
        Some(value as isize)
    } else {
        None
    }
}

proof fn lemma_digits_value_grows(s: Seq<u8>, k: int)
    requires
        0 <= k <= s.len(),
        forall|i: int| 0 <= i < s.len() ==> 48 <= #[trigger] s[i] <= 57,
    ensures
        spec_digits_value(s.take(k)) <= spec_digits_value(s),
    decreases s.len() - k,
{
    if k == s.len() {
        assert(s.take(k) =~= s);
    } else {
        assert(s.drop_last().take(k) =~= s.take(k));
        lemma_digits_value_grows(s.drop_last(), k);
    }
}

/// Reads an integer from its text.
pub fn parse_index(text: &[u8]) -> (res: Option<isize>)
    ensures
        res == spec_parse_index(text@),
{
    let negative: bool = text.len() > 0 && text[0] == 45u8;
    let start: usize = if text.len() > 0 && (text[0] == 45u8 || text[0] == 43u8) {
        1
    } else {
        0
    };
    let ghost digits = spec_digits_of(text@);
    if start == text.len() {
        return None;
    }
    // The largest magnitude that can still fit: that of the least integer.
    let limit: u64 = (isize::MAX as u64) + 1;
    let mut magnitude: u64 = 0;
    let mut i: usize = start;
    while i < text.len()
        invariant
            start <= i <= text.len(),
            start <= 1,
            digits == text@.skip(start as int),
            digits == spec_digits_of(text@),
            limit == isize::MAX as u64 + 1,
            magnitude <= limit,
            magnitude == spec_digits_value(digits.take(i - start)),
            forall|j: int| 0 <= j < i - start ==> 48 <= #[trigger] digits[j] <= 57,
        decreases text.len() - i,
    {
        let byte: u8 = text[i];
        if byte < 48u8 || byte > 57u8 {
            assert(digits[i - start] == byte);
            return None;
        }
        let digit: u64 = (byte - 48u8) as u64;
        proof {
            let next = digits.take(i - start + 1);
            assert(next.drop_last() =~= digits.take(i - start));
            assert(next.last() == byte);
            assert(spec_digits_value(next) == magnitude * 10 + digit);
        }
        if magnitude > (limit - digit) / 10 {
            proof {
                assert(magnitude * 10 + digit > limit) by (nonlinear_arith)
                    requires
                        magnitude > (limit - digit) / 10,
                        digit <= 9,
                        limit >= 9,
                ;
                if spec_is_digits(digits) {
                    lemma_digits_value_grows(digits, i - start + 1);
                }
            }
            return None;
        }
        assert(magnitude * 10 + digit <= limit) by (nonlinear_arith)
            requires
                magnitude <= (limit - digit) / 10,
                digit <= limit,
        ;
        magnitude = magnitude * 10 + digit;
        i += 1;
    }
    assert(digits.take(i - start) =~= digits);
    if negative {
        if magnitude == 0 {
            Some(0)
        } else {
            let below: isize = (magnitude - 1) as isize;
            Some(-below - 1)
        }
    } else if magnitude == limit {
        None
    } else {
        Some(magnitude as isize)
    }
}

/// One step along a path into an object.
#[derive(Clone, Debug, PartialEq, Eq)]
pub enum PathStep {
    /// To the attribute at this place among the object's attributes.
    Attribute(usize),
    /// The attribute named is not there: the step leads nowhere else.
    Stay,
    /// To the variable of this name in the environment.
    Variable(String),
    /// To the element at this index of the list.
    Element(isize),
    /// To the member at this index of the pairlist.
    Member(isize),
}

/// A step with its name as a sequence of characters.
pub ghost enum PathStepView {
    Attribute(usize),
    Stay,
    Variable(Seq<char>),
    Element(isize),
    Member(isize),
}

impl View for PathStep {
    type V = PathStepView;

    open spec fn view(&self) -> PathStepView {
        match self {
            PathStep::Attribute(i) => PathStepView::Attribute(*i),
            PathStep::Stay => PathStepView::Stay,
            PathStep::Variable(name) => PathStepView::Variable(name@),
            PathStep::Element(i) => PathStepView::Element(*i),
            PathStep::Member(i) => PathStepView::Member(*i),
        }
    }
}

/// The element of a path names an attribute: it starts with an `@`.
pub open spec fn spec_names_attribute(element: Seq<char>) -> bool {
    encode_utf8(element).len() > 0 && encode_utf8(element)[0] == 64
}

/// The first place among the names, from `from` on, of the name whose bytes
/// are `wanted`; the number of names where there is none.
pub open spec fn spec_find_name(names: Seq<Seq<char>>, wanted: Seq<u8>, from: int) -> int
    decreases names.len() - from,
{
    if from < 0 || from >= names.len() {
        names.len() as int
    } else if encode_utf8(names[from]) == wanted {
        from
    } else {
        spec_find_name(names, wanted, from + 1)
    }
}

/// What a step comes to, or why there is none.
pub ghost enum StepResult {
    Step(PathStepView),
    UnexpectedType(u32, Seq<u32>),
    InvalidIndex(Seq<char>),
}

/// The step that an element of a path asks for, at an object of type `rtype`
/// with the attributes named. An element behind an `@` leads to the first
/// attribute of that name, or nowhere. Any other element names a variable of
/// an environment, or gives the index of an element of a list or of a member
/// of a pairlist; an object of another type has no steps.
pub open spec fn spec_path_step(rtype: u32, attributes: Seq<Seq<char>>, element: Seq<char>)
    -> StepResult {
    if spec_names_attribute(element) {
        let place = spec_find_name(attributes, encode_utf8(element).skip(1), 0);
        if place < attributes.len() {
            StepResult::Step(PathStepView::Attribute(place as usize))
        } else {
            StepResult::Step(PathStepView::Stay)
        }
    } else if rtype == ENVSXP {
        StepResult::Step(PathStepView::Variable(element))
    } else if rtype == VECSXP || rtype == LISTSXP {
        match spec_parse_index(encode_utf8(element)) {
            Some(index) => if rtype == VECSXP {
                StepResult::Step(PathStepView::Element(index))
            } else {
                StepResult::Step(PathStepView::Member(index))
            },
            None => StepResult::InvalidIndex(element),
        }
    } else {
        StepResult::UnexpectedType(rtype, seq![ENVSXP, VECSXP, LISTSXP])
    }
}

/// A result of `path_step` by its view.
pub open spec fn step_result_view(res: Result<PathStep, Error>) -> StepResult {
    match res {
        Ok(step) => StepResult::Step(step@),
        Err(Error::UnexpectedType(found, expected)) => StepResult::UnexpectedType(
            found,
            expected@,
        ),
        Err(Error::InvalidIndex(text)) => StepResult::InvalidIndex(text@),
    }
}

/// Whether the bytes of `name` are those of `text` from `from` on.
fn tail_equals(text: &[u8], from: usize, name: &[u8]) -> (res: bool)
    requires
        from <= text@.len(),
    ensures
        res == (name@ == text@.skip(from as int)),
{
    let len: usize = text.len();
    if name.len() != len - from {
        return false;
    }
    let mut i: usize = 0;
    while i < name.len()
        invariant
            i <= name.len(),
            from <= text@.len(),
            len == text@.len(),
            name@.len() == text@.len() - from,
            forall|j: int| 0 <= j < i ==> name@[j] == text@[from + j],
        decreases name.len() - i,
    {
        if name[i] != text[from + i] {
            assert(text@.skip(from as int)[i as int] == text@[from + i]);
            return false;
        }
        i += 1;
    }
    assert(name@ =~= text@.skip(from as int));
    true
}

/// Decides the step for one element of a path.
pub fn path_step(rtype: u32, attributes: &Vec<String>, element: String) -> (res: Result<
    PathStep,
    Error,
>)
    ensures
        step_result_view(res) == spec_path_step(rtype, string_views(attributes@), element@),
{
    let text = element.as_str().as_bytes();
    if text.len() > 0 && text[0] == 64u8 {
        let ghost names = string_views(attributes@);
        let ghost wanted = text@.skip(1);
        let mut i: usize = 0;
        while i < attributes.len()
            invariant
                i <= attributes.len(),
                names == string_views(attributes@),
                names.len() == attributes@.len(),
                wanted == text@.skip(1),
                text@ == encode_utf8(element@),
                text@.len() > 0,
                text@[0] == 64,
                spec_find_name(names, wanted, 0) == spec_find_name(names, wanted, i as int),
            decreases attributes.len() - i,
        {
            if tail_equals(text, 1, attributes[i].as_str().as_bytes()) {
                assert(encode_utf8(names[i as int]) == wanted);
                assert(spec_find_name(names, wanted, i as int) == i);
                return Ok(PathStep::Attribute(i));
            }
            assert(encode_utf8(names[i as int]) != wanted);
            assert(spec_find_name(names, wanted, i as int) == spec_find_name(
                names,
                wanted,
                i + 1,
            ));
            i += 1;
        }
        assert(spec_find_name(names, wanted, i as int) == names.len());
        Ok(PathStep::Stay)
    } else if rtype == ENVSXP {
        Ok(PathStep::Variable(element))
    } else if rtype == VECSXP || rtype == LISTSXP {
        match parse_index(text) {
            Some(index) => if rtype == VECSXP {
                Ok(PathStep::Element(index))
            } else {
                Ok(PathStep::Member(index))
            },
            None => Err(Error::InvalidIndex(element)),
        }
    } else {
        let mut expected: Vec<u32> = Vec::new();
        expected.push(ENVSXP);
        expected.push(VECSXP);
        expected.push(LISTSXP);
        assert(expected@ =~= seq![ENVSXP, VECSXP, LISTSXP]);
        Err(Error::UnexpectedType(rtype, expected))
    }
}

} // verus!
