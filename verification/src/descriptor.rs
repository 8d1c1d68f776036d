//! Field and method descriptors: the compact texts in which a class file
//! writes types.
//!
//! A field descriptor is a primitive type's letter, or `L`, a class name
//! and `;`, or `[` and a field descriptor. A method descriptor is `(`, any
//! number of field descriptors, `)`, and the return type.

use crate::error::DecodeError;
use crate::text::{concat, from_chars, push_char, to_chars, views};
use vstd::prelude::*;

verus! {

/// The letters that start a descriptor.
#[derive(Clone, Copy, Debug, PartialEq, Eq, Structural)]
pub enum FieldTypeTerm {
    /// `byte`
    B,
    /// `char`
    C,
    /// `double`
    D,
    /// `float`
    F,
    /// `int`
    I,
    /// `long`
    J,
    /// a class name follows, up to `;`
    L,
    /// `short`
    S,
    /// `boolean`
    Z,
    /// `[`: one dimension of an array
    A,
}

/// A type, as a field descriptor writes it.
#[derive(Debug, PartialEq, Eq)]
pub enum FieldType {
    BaseType { term: FieldTypeTerm },
    ObjectType { class_name: String },
    ArrayType { field_type: Box<FieldType> },
}

/// What a [`FieldType`] holds, as plain mathematical values.
pub enum FieldTypeView {
    BaseType { term: FieldTypeTerm },
    ObjectType { class_name: Seq<char> },
    ArrayType { field_type: Box<FieldTypeView> },
}

impl View for FieldType {
    type V = FieldTypeView;

    open spec fn view(&self) -> FieldTypeView
        decreases self,
    {
        match self {
            FieldType::BaseType { term } => FieldTypeView::BaseType { term: *term },
            FieldType::ObjectType { class_name } => FieldTypeView::ObjectType {
                class_name: class_name@,
            },
            FieldType::ArrayType { field_type } => FieldTypeView::ArrayType {
                field_type: Box::new((**field_type)@),
            },
        }
    }
}

impl FieldTypeTerm {
    /// The letter that writes this term.
    pub open spec fn code(self) -> char {
        match self {
            FieldTypeTerm::B => 'B',
            FieldTypeTerm::C => 'C',
            FieldTypeTerm::D => 'D',
            FieldTypeTerm::F => 'F',
            FieldTypeTerm::I => 'I',
            FieldTypeTerm::J => 'J',
            FieldTypeTerm::L => 'L',
            FieldTypeTerm::S => 'S',
            FieldTypeTerm::Z => 'Z',
            FieldTypeTerm::A => '[',
        }
    }

    /// Whether this term is a primitive type.
    pub open spec fn is_primitive(self) -> bool {
        self != FieldTypeTerm::L && self != FieldTypeTerm::A
    }

    /// The primitive type's name in source code; nothing for the two terms
    /// that are no primitive type.
    pub open spec fn spec_java_name(self) -> Seq<char> {
        match self {
            FieldTypeTerm::B => "byte"@,
            FieldTypeTerm::C => "char"@,
            FieldTypeTerm::D => "double"@,
            FieldTypeTerm::F => "float"@,
            FieldTypeTerm::I => "int"@,
            FieldTypeTerm::J => "long"@,
            FieldTypeTerm::L => ""@,
            FieldTypeTerm::S => "short"@,
            FieldTypeTerm::Z => "boolean"@,
            FieldTypeTerm::A => ""@,
        }
    }

    /// The primitive type's name in source code; nothing for the two terms
    /// that are no primitive type.
    pub fn java_name(&self) -> (name: &'static str)
        ensures
            name@ == self.spec_java_name(),
    {
        match self {
            FieldTypeTerm::B => "byte",
            FieldTypeTerm::C => "char",
            FieldTypeTerm::D => "double",
            FieldTypeTerm::F => "float",
            FieldTypeTerm::I => "int",
            FieldTypeTerm::J => "long",
            FieldTypeTerm::L => "",
            FieldTypeTerm::S => "short",
            FieldTypeTerm::Z => "boolean",
            FieldTypeTerm::A => "",
        }
    }
}

/// The primitive type that the letter `c` writes.
pub open spec fn spec_primitive(c: char) -> Option<FieldTypeTerm> {
    if c == 'B' {
        Some(FieldTypeTerm::B)
    } else if c == 'C' {
        Some(FieldTypeTerm::C)
    } else if c == 'D' {
        Some(FieldTypeTerm::D)
    } else if c == 'F' {
        Some(FieldTypeTerm::F)
    } else if c == 'I' {
        Some(FieldTypeTerm::I)
    } else if c == 'J' {
        Some(FieldTypeTerm::J)
    } else if c == 'S' {
        Some(FieldTypeTerm::S)
    } else if c == 'Z' {
        Some(FieldTypeTerm::Z)
    } else {
        None
    }
}

/// The first place from `from` on at which `s` holds `c`.
pub open spec fn position_from(s: Seq<char>, c: char, from: int) -> Option<int>
    decreases s.len() - from,
{
    if from < 0 || from >= s.len() {
        None
    } else if s[from] == c {
        Some(from)
    } else {
        position_from(s, c, from + 1)
    }
}

/// Where the field descriptor that starts at `from` ends, if one starts
/// there.
pub open spec fn field_type_end(s: Seq<char>, from: int) -> Option<int>
    decreases s.len() - from,
{
    if from < 0 || from >= s.len() {
        None
    } else if spec_primitive(s[from]) is Some {
        Some(from + 1)
    } else if s[from] == 'L' {
        match position_from(s, ';', from + 1) {
            Some(semicolon) => Some(semicolon + 1),
            None => None,
        }
    } else if s[from] == '[' {
        field_type_end(s, from + 1)
    } else {
        None
    }
}

/// Whether the whole of `s` is one field descriptor.
pub open spec fn is_field_descriptor(s: Seq<char>) -> bool {
    field_type_end(s, 0) == Some(s.len() as int)
}

/// The type that the field descriptor from `from` to the end of `s`
/// writes, if those characters are one field descriptor.
pub open spec fn spec_field_type_at(s: Seq<char>, from: int) -> Option<FieldTypeView>
    decreases s.len() - from,
{
    if from < 0 || from >= s.len() {
        None
    } else if spec_primitive(s[from]) is Some {
        if from + 1 == s.len() {
            Some(FieldTypeView::BaseType { term: spec_primitive(s[from])->0 })
        } else {
            None
        }
    } else if s[from] == 'L' {
        match position_from(s, ';', from + 1) {
            Some(semicolon) => if semicolon + 1 == s.len() {
                Some(FieldTypeView::ObjectType { class_name: s.subrange(from + 1, semicolon) })
            } else {
                None
            },
            None => None,
        }
    } else if s[from] == '[' {
        match spec_field_type_at(s, from + 1) {
            Some(element) => Some(FieldTypeView::ArrayType { field_type: Box::new(element) }),
            None => None,
        }
    } else {
        None
    }
}

/// The type that the field descriptor `s` writes.
pub open spec fn spec_parse_field_type(s: Seq<char>) -> Option<FieldTypeView> {
    spec_field_type_at(s, 0)
}

/// The field descriptors that follow one another from `from` to `to`, if
/// those characters are made of field descriptors.
pub open spec fn params_between(s: Seq<char>, from: int, to: int) -> Option<Seq<Seq<char>>>
    decreases to - from,
{
    if from >= to {
        if from == to {
            Some(Seq::empty())
        } else {
            None
        }
    } else {
        match field_type_end(s, from) {
            None => None,
            Some(end) => if from < end <= to {
                match params_between(s, end, to) {
                    None => None,
                    Some(rest) => Some(seq![s.subrange(from, end)] + rest),
                }
            } else {
                None
            },
        }
    }
}

/// The descriptors of the parameters of the method descriptor `s`: `s`
/// starts with `(`, and what stands between that and the first `)` is made
/// of field descriptors.
pub open spec fn spec_method_arguments(s: Seq<char>) -> Option<Seq<Seq<char>>> {
    if s.len() > 0 && s[0] == '(' {
        match position_from(s, ')', 1) {
            Some(close) => params_between(s, 1, close),
            None => None,
        }
    } else {
        None
    }
}

/// What follows the first `)` of `s`.
pub open spec fn spec_return_descriptor(s: Seq<char>) -> Option<Seq<char>> {
    match position_from(s, ')', 0) {
        Some(close) => Some(s.subrange(close + 1, s.len() as int)),
        None => None,
    }
}

/// `name` with a dot in place of each slash.
pub open spec fn dotted(name: Seq<char>) -> Seq<char> {
    Seq::new(
        name.len(),
        |i: int|
            if name[i] == '/' {
                '.'
            } else {
                name[i]
            },
    )
}

/// `n` pairs of square brackets.
pub open spec fn brackets(n: nat) -> Seq<char>
    decreases n,
{
    if n == 0 {
        Seq::empty()
    } else {
        brackets((n - 1) as nat) + "[]"@
    }
}

impl FieldTypeView {
    /// The number of array dimensions.
    pub open spec fn dimensions(self) -> nat
        decreases self,
    {
        match self {
            FieldTypeView::ArrayType { field_type } => 1 + field_type.dimensions(),
            _ => 0,
        }
    }

    /// The type of the elements, under every array dimension.
    pub open spec fn element(self) -> FieldTypeView
        decreases self,
    {
        match self {
            FieldTypeView::ArrayType { field_type } => field_type.element(),
            _ => self,
        }
    }

    /// The descriptor that writes this type.
    pub open spec fn descriptor(self) -> Seq<char>
        decreases self,
    {
        match self {
            FieldTypeView::BaseType { term } => seq![term.code()],
            FieldTypeView::ObjectType { class_name } => seq!['L'] + class_name + seq![';'],
            FieldTypeView::ArrayType { field_type } => seq!['['] + field_type.descriptor(),
        }
    }

    /// The type as source code writes it: the element type's name, a
    /// class's with dots for slashes, then a pair of square brackets for
    /// each dimension.
    pub open spec fn spec_str_java(self) -> Seq<char> {
        (match self.element() {
            FieldTypeView::BaseType { term } => term.spec_java_name(),
            FieldTypeView::ObjectType { class_name } => dotted(class_name),
            FieldTypeView::ArrayType { .. } => Seq::empty(),
        }) + brackets(self.dimensions())
    }
}

/// The first place from `from` on at which `chars` holds `c`.
pub fn find_char(chars: &Vec<char>, c: char, from: usize) -> (found: Option<usize>)
    ensures
        match found {
            Some(at) => position_from(chars@, c, from as int) == Some(at as int),
            None => position_from(chars@, c, from as int) is None,
        },
        found is Some ==> from <= found->0 < chars.len() && chars@[found->0 as int] == c,
{
    let mut i: usize = from;
    while i < chars.len()
        invariant
            from <= i,
            position_from(chars@, c, from as int) == position_from(chars@, c, i as int),
        decreases chars.len() - i,
    {
        if chars[i] == c {
            return Some(i);
        }
        i += 1;
    }
    None
}

/// The primitive type that the letter `c` writes.
pub fn primitive(c: char) -> (term: Option<FieldTypeTerm>)
    ensures
        term == spec_primitive(c),
{
    if c == 'B' {
        Some(FieldTypeTerm::B)
    } else if c == 'C' {
        Some(FieldTypeTerm::C)
    } else if c == 'D' {
        Some(FieldTypeTerm::D)
    } else if c == 'F' {
        Some(FieldTypeTerm::F)
    } else if c == 'I' {
        Some(FieldTypeTerm::I)
    } else if c == 'J' {
        Some(FieldTypeTerm::J)
    } else if c == 'S' {
        Some(FieldTypeTerm::S)
    } else if c == 'Z' {
        Some(FieldTypeTerm::Z)
    } else {
        None
    }
}

/// Where the field descriptor that starts at `from` ends, if one starts
/// there.
pub fn find_field_type_end(chars: &Vec<char>, from: usize) -> (end: Option<usize>)
    ensures
        match end {
            Some(end) => field_type_end(chars@, from as int) == Some(end as int),
            None => field_type_end(chars@, from as int) is None,
        },
        end is Some ==> from < end->0 <= chars.len(),
{
    let mut i: usize = from;
    while i < chars.len() && chars[i] == '['
        invariant
            from <= i,
            field_type_end(chars@, from as int) == field_type_end(chars@, i as int),
        decreases chars.len() - i,
    {
        i += 1;
    }
    if i >= chars.len() {
        return None;
    }
    if primitive(chars[i]).is_some() {
        Some(i + 1)
    } else if chars[i] == 'L' {
        match find_char(chars, ';', i + 1) {
            Some(semicolon) => Some(semicolon + 1),
            None => None,
        }
    } else {
        None
    }
}

/// Splits the parameters of a method descriptor into their descriptors.
pub fn split_method_arguments(descriptor: &str) -> (args: Option<Vec<String>>)
    ensures
        match args {
            Some(args) => spec_method_arguments(descriptor@) == Some(views(args@)),
            None => spec_method_arguments(descriptor@) is None,
        },
        args is Some ==> args->0.len() < usize::MAX,
        args is Some ==> spec_return_descriptor(descriptor@) is Some && descriptor@ == seq!['(']
            + concat(views(args->0@)) + seq![')'] + spec_return_descriptor(descriptor@)->0,
        args is Some ==> forall|i: int|
            0 <= i < args->0.len() ==> is_field_descriptor((#[trigger] args->0@[i])@),
{
    let chars = to_chars(descriptor);
    if chars.len() == 0 || chars[0] != '(' {
        return None;
    }
    let close = match find_char(&chars, ')', 1) {
        Some(close) => close,
        None => { return None; },
    };
    let mut args: Vec<String> = Vec::new();
    let mut at: usize = 1;
    assert(views(args@) =~= Seq::empty());
    proof {
        let all = params_between(chars@, 1, close as int);
        if all is Some {
            assert(Seq::<Seq<char>>::empty() + all->0 =~= all->0);
        }
    }
    while at < close
        invariant
            1 <= at,
            args.len() < at,
            close < chars.len(),
            chars@ == descriptor@,
            chars@[0] == '(',
            position_from(chars@, ')', 1) == Some(close as int),
            match params_between(chars@, at as int, close as int) {
                Some(rest) => params_between(chars@, 1, close as int) == Some(views(args@) + rest),
                None => params_between(chars@, 1, close as int) is None,
            },
        decreases close - at,
    {
        let end = match find_field_type_end(&chars, at) {
            Some(end) => end,
            None => { return None; },
        };
        if end > close {
            return None;
        }
        let ghost done = views(args@);
        let arg = from_chars(&chars, at, end);
        args.push(arg);
        proof {
            assert(views(args@) =~= done.push(arg@));
            let rest = params_between(chars@, end as int, close as int);
            if rest is Some {
                assert(done + (seq![arg@] + rest->0) =~= done.push(arg@) + rest->0);
            }
        }
        at = end;
    }
    if at > close {
        return None;
    }
    proof {
        assert(views(args@) + Seq::<Seq<char>>::empty() =~= views(args@));
        lemma_method_arguments_rebuild(descriptor@);
        assert forall|i: int| 0 <= i < args.len() implies is_field_descriptor(
            (#[trigger] args@[i])@,
        ) by {
            assert(views(args@)[i] == args@[i]@);
        }
    }
    Some(args)
}

/// What follows the first `)` of a method descriptor.
pub fn return_descriptor(descriptor: &str) -> (ret: Option<String>)
    ensures
        match ret {
            Some(ret) => spec_return_descriptor(descriptor@) == Some(ret@),
            None => spec_return_descriptor(descriptor@) is None,
        },
{
    let chars = to_chars(descriptor);
    match find_char(&chars, ')', 0) {
        Some(close) => Some(from_chars(&chars, close + 1, chars.len())),
        None => None,
    }
}

/// Reads one field descriptor.
pub fn parse_field_type(field_type: String) -> (r: Result<FieldType, DecodeError>)
    ensures
        match r {
            Ok(parsed) => spec_parse_field_type(field_type@) == Some(parsed@),
            Err(e) => spec_parse_field_type(field_type@) is None && e
                == DecodeError::MalformedDescriptor,
        },
        r is Ok <==> is_field_descriptor(field_type@),
        r is Ok ==> r->Ok_0@.descriptor() == field_type@,
{
    proof {
        if spec_parse_field_type(field_type@) is Some {
            lemma_field_type_descriptor(field_type@, 0);
            assert(field_type@.subrange(0, field_type@.len() as int) =~= field_type@);
        }
        if is_field_descriptor(field_type@) {
            lemma_field_descriptor_parses(field_type@, 0);
        }
    }
    let chars = to_chars(field_type.as_str());
    let mut dims: usize = 0;
    while dims < chars.len() && chars[dims] == '['
        invariant
            dims <= chars.len(),
            forall|j: int| 0 <= j < dims ==> chars@[j] == '[',
        decreases chars.len() - dims,
    {
        dims += 1;
    }
    if dims >= chars.len() {
        proof {
            lemma_brackets_only(chars@, 0);
        }
        return Err(DecodeError::MalformedDescriptor);
    }
    let element = match primitive(chars[dims]) {
        Some(term) => {
            if dims + 1 != chars.len() {
                proof {
                    lemma_wrapped(chars@, 0, dims as int);
                }
                return Err(DecodeError::MalformedDescriptor);
            }
            FieldType::BaseType { term }
        },
        None => {
            if chars[dims] != 'L' {
                proof {
                    lemma_wrapped(chars@, 0, dims as int);
                }
                return Err(DecodeError::MalformedDescriptor);
            }
            match find_char(&chars, ';', dims + 1) {
                Some(semicolon) => {
                    if semicolon + 1 != chars.len() {
                        proof {
                            lemma_wrapped(chars@, 0, dims as int);
                        }
                        return Err(DecodeError::MalformedDescriptor);
                    }
                    FieldType::ObjectType { class_name: from_chars(&chars, dims + 1, semicolon) }
                },
                None => {
                    proof {
                        lemma_wrapped(chars@, 0, dims as int);
                    }
                    return Err(DecodeError::MalformedDescriptor);
                },
            }
        },
    };
    let mut parsed = element;
    let mut level: usize = dims;
    while level > 0
        invariant
            level <= dims < chars.len(),
            forall|j: int| 0 <= j < dims ==> chars@[j] == '[',
            spec_field_type_at(chars@, level as int) == Some(parsed@),
        decreases level,
    {
        level -= 1;
        parsed = FieldType::ArrayType { field_type: Box::new(parsed) };
    }
    Ok(parsed)
}

/// A text that holds only `[` from `from` on is no field descriptor.
pub proof fn lemma_brackets_only(s: Seq<char>, from: int)
    requires
        0 <= from <= s.len(),
        forall|j: int| from <= j < s.len() ==> s[j] == '[',
    ensures
        spec_field_type_at(s, from) is None,
    decreases s.len() - from,
{
    if from < s.len() {
        lemma_brackets_only(s, from + 1);
    }
}

/// Under `[`s a text is a field descriptor only if what follows them is
/// one.
pub proof fn lemma_wrapped(s: Seq<char>, from: int, to: int)
    requires
        0 <= from <= to <= s.len(),
        forall|j: int| from <= j < to ==> s[j] == '[',
        spec_field_type_at(s, to) is None,
    ensures
        spec_field_type_at(s, from) is None,
    decreases to - from,
{
    if from < to {
        lemma_wrapped(s, from + 1, to);
    }
}

/// Reads each of `field_types` as a field descriptor. The first one that
/// is none fails them all.
pub fn parse_field_types(field_types: &Vec<String>) -> (r: Result<Vec<FieldType>, DecodeError>)
    ensures
        match r {
            Ok(parsed) => parsed.len() == field_types.len() && forall|i: int|
                0 <= i < parsed.len() ==> spec_parse_field_type(field_types@[i]@) == Some(
                    (#[trigger] parsed@[i])@,
                ),
            Err(e) => e == DecodeError::MalformedDescriptor && exists|i: int|
                0 <= i < field_types.len() && spec_parse_field_type(
                    (#[trigger] field_types@[i])@,
                ) is None,
        },
{
    let mut parsed: Vec<FieldType> = Vec::with_capacity(field_types.len());
    let mut i: usize = 0;
    while i < field_types.len()
        invariant
            i <= field_types.len(),
            parsed.len() == i,
            forall|j: int|
                0 <= j < i ==> spec_parse_field_type(field_types@[j]@) == Some(
                    (#[trigger] parsed@[j])@,
                ),
        decreases field_types.len() - i,
    {
        let one = parse_field_type(field_types[i].clone())?;
        parsed.push(one);
        i += 1;
    }
    Ok(parsed)
}

impl FieldType {
    /// The type as source code writes it.
    pub fn str_java(&self) -> (text: String)
        ensures
            text@ == self@.spec_str_java(),
    {
        let mut inner: &FieldType = self;
        loop
            invariant
                inner@.element() == self@.element(),
            ensures
                !(inner is ArrayType),
            decreases inner,
        {
            match inner {
                FieldType::ArrayType { field_type } => {
                    inner = &**field_type;
                },
                _ => { break ; },
            }
        }
        let mut text = match inner {
            FieldType::BaseType { term } => String::from_str(term.java_name()),
            FieldType::ObjectType { class_name } => dotted_string(class_name.as_str()),
            FieldType::ArrayType { .. } => String::new(),
        };
        let mut outer: &FieldType = self;
        loop
            invariant
                text@ + brackets(outer@.dimensions()) == self@.spec_str_java(),
            ensures
                !(outer is ArrayType),
            decreases outer,
        {
            match outer {
                FieldType::ArrayType { field_type } => {
                    proof {
                        let n = (**field_type)@.dimensions();
                        lemma_brackets_front(n);
                        assert(text@ + brackets(n + 1) =~= text@ + "[]"@ + brackets(n));
                    }
                    outer = &**field_type;
                    text.append("[]");
                },
                _ => { break ; },
            }
        }
        assert(text@ + brackets(0) =~= text@);
        text
    }
}

/// One more pair of brackets can be put in front as well as behind.
pub proof fn lemma_brackets_front(n: nat)
    ensures
        brackets(n + 1) == "[]"@ + brackets(n),
    decreases n,
{
    if n == 0 {
        assert(brackets(1) =~= "[]"@ + brackets(0));
    } else {
        lemma_brackets_front((n - 1) as nat);
        assert(brackets(n + 1) =~= "[]"@ + brackets(n));
    }
}

/// `name` with a dot in place of each slash.
pub fn dotted_string(name: &str) -> (text: String)
    ensures
        text@ == dotted(name@),
{
    let chars = to_chars(name);
    let mut text = String::new();
    let mut i: usize = 0;
    while i < chars.len()
        invariant
            i <= chars.len(),
            chars@ == name@,
            text@ == dotted(name@).take(i as int),
        decreases chars.len() - i,
    {
        let c = if chars[i] == '/' {
            '.'
        } else {
            chars[i]
        };
        push_char(&mut text, c);
        i += 1;
        assert(text@ =~= dotted(name@).take(i as int));
    }
    assert(dotted(name@).take(chars.len() as int) =~= dotted(name@));
    text
}

/// Where a character is found it stands, no earlier than the search
/// started, and it stands nowhere between.
pub proof fn lemma_position_found(s: Seq<char>, c: char, from: int)
    requires
        position_from(s, c, from) is Some,
    ensures
        from <= position_from(s, c, from)->0 < s.len(),
        0 <= from,
        s[position_from(s, c, from)->0] == c,
        forall|j: int| from <= j < position_from(s, c, from)->0 ==> s[j] != c,
    decreases s.len() - from,
{
    if s[from] != c {
        lemma_position_found(s, c, from + 1);
    }
}

/// A character that stands at `at`, and nowhere from `from` up to `at`, is
/// found at `at`.
pub proof fn lemma_position_first(s: Seq<char>, c: char, from: int, at: int)
    requires
        0 <= from <= at < s.len(),
        s[at] == c,
        forall|j: int| from <= j < at ==> s[j] != c,
    ensures
        position_from(s, c, from) == Some(at),
    decreases at - from,
{
    if from < at {
        lemma_position_first(s, c, from + 1, at);
    }
}

/// A field descriptor ends after where it starts, and inside the text.
pub proof fn lemma_field_type_end_bounds(s: Seq<char>, from: int)
    requires
        field_type_end(s, from) is Some,
    ensures
        0 <= from < field_type_end(s, from)->0 <= s.len(),
    decreases s.len() - from,
{
    if spec_primitive(s[from]) is Some {
    } else if s[from] == 'L' {
        lemma_position_found(s, ';', from + 1);
    } else {
        lemma_field_type_end_bounds(s, from + 1);
    }
}

/// A field descriptor is the same wherever it stands: if a part of `s`
/// that starts at `at` holds the characters of `f`, and a field descriptor
/// starts at `k` in `f`, then one starts at `at + k` in `s` and ends at the
/// matching place.
pub proof fn lemma_field_type_embeds(f: Seq<char>, s: Seq<char>, at: int, k: int)
    requires
        0 <= at,
        0 <= k,
        at + f.len() <= s.len(),
        s.subrange(at, at + f.len()) == f,
        field_type_end(f, k) is Some,
    ensures
        field_type_end(s, at + k) == Some(at + field_type_end(f, k)->0),
    decreases f.len() - k,
{
    assert(forall|j: int| 0 <= j < f.len() ==> f[j] == s.subrange(at, at + f.len())[j]);
    assert(f[k] == s[at + k]);
    if spec_primitive(f[k]) is Some {
    } else if f[k] == 'L' {
        lemma_position_found(f, ';', k + 1);
        let semicolon = position_from(f, ';', k + 1)->0;
        assert(s[at + semicolon] == f[semicolon]);
        assert forall|j: int| at + k + 1 <= j < at + semicolon implies s[j] != ';' by {
            assert(s[j] == f[j - at]);
        }
        lemma_position_first(s, ';', at + k + 1, at + semicolon);
    } else {
        lemma_field_type_embeds(f, s, at, k + 1);
    }
}

/// The characters from the start of a field descriptor to its end are a
/// field descriptor by themselves.
pub proof fn lemma_field_type_cut(s: Seq<char>, from: int, k: int)
    requires
        0 <= from,
        0 <= k,
        field_type_end(s, from) is Some,
        field_type_end(s, from + k) == field_type_end(s, from),
    ensures
        field_type_end(s.subrange(from, field_type_end(s, from)->0), k) == Some(
            field_type_end(s, from)->0 - from,
        ),
    decreases s.len() - (from + k),
{
    lemma_field_type_end_bounds(s, from);
    lemma_field_type_end_bounds(s, from + k);
    let end = field_type_end(s, from)->0;
    let part = s.subrange(from, end);
    assert(part[k] == s[from + k]);
    if spec_primitive(s[from + k]) is Some {
    } else if s[from + k] == 'L' {
        lemma_position_found(s, ';', from + k + 1);
        let semicolon = position_from(s, ';', from + k + 1)->0;
        assert(part[semicolon - from] == s[semicolon]);
        assert forall|j: int| k + 1 <= j < semicolon - from implies part[j] != ';' by {
            assert(part[j] == s[from + j]);
        }
        lemma_position_first(part, ';', k + 1, semicolon - from);
    } else {
        lemma_field_type_cut(s, from, k + 1);
    }
}

/// Texts put together are the first of them and then the others put
/// together.
pub proof fn lemma_concat_first(parts: Seq<Seq<char>>)
    requires
        parts.len() > 0,
    ensures
        concat(parts) == parts[0] + concat(parts.drop_first()),
    decreases parts.len(),
{
    if parts.len() == 1 {
        assert(parts.drop_last() =~= Seq::empty());
        assert(parts.drop_first() =~= Seq::empty());
        assert(concat(parts) =~= parts[0] + concat(
            parts.drop_first(),
        ));
    } else {
        lemma_concat_first(parts.drop_last());
        assert(parts.drop_last().drop_first() =~= parts.drop_first().drop_last());
        assert(parts.drop_last()[0] == parts[0]);
        assert(parts.drop_first().last() == parts.last());
        assert(concat(parts) =~= parts[0] + concat(
            parts.drop_first(),
        ));
    }
}

/// What a split gives, put together, is what was split; and each part is
/// a field descriptor by itself.
pub proof fn lemma_params_rebuild(s: Seq<char>, from: int, to: int)
    requires
        0 <= from <= to <= s.len(),
        params_between(s, from, to) is Some,
    ensures
        concat(params_between(s, from, to)->0) == s.subrange(from, to),
        forall|i: int|
            0 <= i < params_between(s, from, to)->0.len() ==> is_field_descriptor(
                #[trigger] params_between(s, from, to)->0[i],
            ),
    decreases to - from,
{
    let params = params_between(s, from, to)->0;
    if from == to {
        assert(concat(params) =~= s.subrange(from, to));
    } else {
        let end = field_type_end(s, from)->0;
        lemma_params_rebuild(s, end, to);
        let rest = params_between(s, end, to)->0;
        let head = s.subrange(from, end);
        assert(params =~= seq![head] + rest);
        assert(params.drop_first() =~= rest);
        lemma_concat_first(params);
        assert(head + s.subrange(end, to) =~= s.subrange(from, to));
        lemma_field_type_cut(s, from, 0);
        assert forall|i: int| 0 <= i < params.len() implies is_field_descriptor(
            #[trigger] params[i],
        ) by {
            if i > 0 {
                assert(params[i] == rest[i - 1]);
            }
        }
    }
}

/// Splitting the parameters of a method descriptor loses nothing: the
/// descriptor is `(`, the parts that the split gives, one after the other,
/// `)`, and the return type's descriptor; and each part is a field
/// descriptor by itself.
pub proof fn lemma_method_arguments_rebuild(descriptor: Seq<char>)
    requires
        spec_method_arguments(descriptor) is Some,
    ensures
        spec_return_descriptor(descriptor) is Some,
        descriptor == seq!['('] + concat(spec_method_arguments(descriptor)->0)
            + seq![')'] + spec_return_descriptor(descriptor)->0,
        forall|i: int|
            0 <= i < spec_method_arguments(descriptor)->0.len() ==> is_field_descriptor(
                #[trigger] spec_method_arguments(descriptor)->0[i],
            ),
{
    lemma_position_found(descriptor, ')', 1);
    let close = position_from(descriptor, ')', 1)->0;
    lemma_position_first(descriptor, ')', 0, close);
    lemma_params_rebuild(descriptor, 1, close);
    assert(descriptor =~= seq!['('] + descriptor.subrange(1, close) + seq![')']
        + descriptor.subrange(close + 1, descriptor.len() as int));
}

/// Field descriptors that stand one after the other from `at` to `to` are
/// split into themselves.
pub proof fn lemma_params_found(s: Seq<char>, at: int, to: int, parts: Seq<Seq<char>>)
    requires
        0 <= at <= to <= s.len(),
        s.subrange(at, to) == concat(parts),
        forall|i: int| 0 <= i < parts.len() ==> is_field_descriptor(#[trigger] parts[i]),
    ensures
        params_between(s, at, to) == Some(parts),
    decreases parts.len(),
{
    if parts.len() == 0 {
        assert(s.subrange(at, to).len() == 0);
        assert(parts =~= Seq::empty());
    } else {
        let head = parts[0];
        let rest = parts.drop_first();
        lemma_concat_first(parts);
        assert(is_field_descriptor(head));
        lemma_field_type_end_bounds(head, 0);
        assert(s.subrange(at, to).len() == head.len() + concat(rest).len());
        let end = at + head.len();
        assert(s.subrange(at, end) =~= s.subrange(at, to).subrange(0, head.len() as int));
        assert((head + concat(rest)).subrange(0, head.len() as int) =~= head);
        lemma_field_type_embeds(head, s, at, 0);
        assert(s.subrange(end, to) =~= s.subrange(at, to).subrange(
            head.len() as int,
            to - at,
        ));
        assert((head + concat(rest)).subrange(head.len() as int, to - at)
            =~= concat(rest));
        assert forall|i: int| 0 <= i < rest.len() implies is_field_descriptor(
            #[trigger] rest[i],
        ) by {
            assert(rest[i] == parts[i + 1]);
        }
        lemma_params_found(s, end, to, rest);
        assert(seq![head] + rest =~= parts);
    }
}

/// Every method descriptor is split into its parameters: where field
/// descriptors without `)` in them stand between `(` and `)`, whatever
/// follows as the return type, the split gives exactly those field
/// descriptors.
pub proof fn lemma_method_arguments_total(parameters: Seq<Seq<char>>, return_type: Seq<char>)
    requires
        forall|i: int|
            0 <= i < parameters.len() ==> is_field_descriptor(#[trigger] parameters[i])
                && !parameters[i].contains(')'),
    ensures
        spec_method_arguments(
            seq!['('] + concat(parameters) + seq![')'] + return_type,
        ) == Some(parameters),
{
    let inner = concat(parameters);
    let descriptor = seq!['('] + inner + seq![')'] + return_type;
    let close = 1 + inner.len() as int;
    lemma_concat_without(parameters, ')');
    assert forall|j: int| 1 <= j < close implies descriptor[j] != ')' by {
        assert(descriptor[j] == inner[j - 1]);
        assert(inner.contains(inner[j - 1]));
    }
    assert(descriptor[close] == ')');
    lemma_position_first(descriptor, ')', 1, close);
    assert(descriptor.subrange(1, close) =~= inner);
    lemma_params_found(descriptor, 1, close, parameters);
}

/// Texts that do not hold a character do not hold it when put together.
pub proof fn lemma_concat_without(parts: Seq<Seq<char>>, c: char)
    requires
        forall|i: int| 0 <= i < parts.len() ==> !(#[trigger] parts[i]).contains(c),
    ensures
        !concat(parts).contains(c),
    decreases parts.len(),
{
    if parts.len() > 0 {
        assert forall|i: int| 0 <= i < parts.drop_last().len() implies !(
        #[trigger] parts.drop_last()[i]).contains(c) by {
            assert(parts.drop_last()[i] == parts[i]);
        }
        lemma_concat_without(parts.drop_last(), c);
        let before = concat(parts.drop_last());
        let whole = concat(parts);
        assert(whole == before + parts.last());
        if whole.contains(c) {
            let j = choose|j: int| 0 <= j < whole.len() && whole[j] == c;
            if j < before.len() {
                assert(before[j] == c);
                assert(before.contains(c));
            } else {
                assert(parts.last()[j - before.len()] == c);
                assert(parts.last().contains(c));
            }
        }
    }
}

/// The type that a field descriptor writes is written by that descriptor:
/// reading loses nothing. And the text that is read is a field descriptor
/// that ends with the text.
pub proof fn lemma_field_type_descriptor(s: Seq<char>, from: int)
    requires
        spec_field_type_at(s, from) is Some,
    ensures
        spec_field_type_at(s, from)->0.descriptor() == s.subrange(from, s.len() as int),
        field_type_end(s, from) == Some(s.len() as int),
    decreases s.len() - from,
{
    let parsed = spec_field_type_at(s, from)->0;
    let rest = s.subrange(from, s.len() as int);
    if spec_primitive(s[from]) is Some {
        assert(parsed.descriptor() =~= rest);
    } else if s[from] == 'L' {
        lemma_position_found(s, ';', from + 1);
        assert(parsed.descriptor() =~= rest);
    } else {
        lemma_field_type_descriptor(s, from + 1);
        assert(parsed.descriptor() =~= rest);
    }
}

/// Every field descriptor that ends with the text writes a type.
pub proof fn lemma_field_descriptor_parses(s: Seq<char>, from: int)
    requires
        field_type_end(s, from) == Some(s.len() as int),
    ensures
        spec_field_type_at(s, from) is Some,
    decreases s.len() - from,
{
    if spec_primitive(s[from]) is Some {
    } else if s[from] == 'L' {
    } else {
        lemma_field_descriptor_parses(s, from + 1);
    }
}

} // verus!
