//! The date-picker card component.
//!
//! A date picker is pure data behind a fixed `date_picker` tag; its
//! interaction payload is a table of string keys and string values. Its wire
//! form is produced against an exact byte-level specification.

use vstd::prelude::*;
use vstd::string::StrSliceExecFns;
use vstd::string::StringSliceAdditionalSpecFns;
use vstd::utf8::encode_utf8;

use crate::json::json_string;
use crate::json::push_json_string;
use crate::json::push_lit;

verus! {

/// A plain-text snippet, as the platform's components embed it.
pub struct PlainText {
    pub tag: String,
    pub content: String,
}

impl PlainText {
    pub fn new(content: &str) -> (r: PlainText)
        ensures
            r.tag@ == "plain_text"@,
            r.content@ == content@,
    {
        PlainText { tag: "plain_text".to_owned(), content: content.to_owned() }
    }
}

/// The JSON object of a plain-text snippet.
pub open spec fn plain_text_bytes(p: PlainText) -> Seq<u8> {
    "{\"tag\":".spec_bytes() + json_string(encode_utf8(p.tag@)) + ",\"content\":".spec_bytes()
        + json_string(encode_utf8(p.content@)) + "}".spec_bytes()
}

/// A confirmation dialog: a title and a body, both plain text.
pub struct InputConfirm {
    pub title: PlainText,
    pub text: PlainText,
}

impl InputConfirm {
    pub fn new(title: &str, content: &str) -> (r: InputConfirm)
        ensures
            r.title.tag@ == "plain_text"@,
            r.title.content@ == title@,
            r.text.tag@ == "plain_text"@,
            r.text.content@ == content@,
    {
        InputConfirm { title: PlainText::new(title), text: PlainText::new(content) }
    }
}

/// The JSON object of a confirmation dialog.
pub open spec fn input_confirm_bytes(c: InputConfirm) -> Seq<u8> {
    "{\"title\":".spec_bytes() + plain_text_bytes(c.title) + ",\"text\":".spec_bytes()
        + plain_text_bytes(c.text) + "}".spec_bytes()
}

/// A date picker: a fixed tag, optional presentation fields, and the
/// key-value table handed back when the user picks a date.
pub struct DatePicker {
    pub tag: String,
    pub name: Option<String>,
    pub required: Option<bool>,
    pub disabled: Option<bool>,
    pub placeholder: Option<PlainText>,
    pub width: Option<String>,
    pub initial_date: Option<String>,
    pub value: Option<Vec<(String, String)>>,
    pub confirm: Option<InputConfirm>,
}

/// The members of the value object, comma separated.
pub open spec fn kv_members_bytes(ps: Seq<(String, String)>) -> Seq<u8>
    decreases ps.len(),
{
    if ps.len() == 0 {
        Seq::empty()
    } else if ps.len() == 1 {
        json_string(encode_utf8(ps[0].0@)) + ":".spec_bytes() + json_string(encode_utf8(ps[0].1@))
    } else {
        kv_members_bytes(ps.drop_last()) + ",".spec_bytes() + json_string(
            encode_utf8(ps.last().0@),
        ) + ":".spec_bytes() + json_string(encode_utf8(ps.last().1@))
    }
}

/// An optional string field: nothing when absent, the prefixed JSON string
/// when present.
pub open spec fn opt_string_field_bytes(prefix: Seq<u8>, o: Option<String>) -> Seq<u8> {
    match o {
        Option::None => Seq::empty(),
        Option::Some(s) => prefix + json_string(encode_utf8(s@)),
    }
}

/// An optional boolean field: nothing when absent, the prefixed JSON boolean
/// when present.
pub open spec fn opt_bool_field_bytes(prefix: Seq<u8>, o: Option<bool>) -> Seq<u8> {
    match o {
        Option::None => Seq::empty(),
        Option::Some(b) => prefix + bool_bytes(b),
    }
}

/// The `name` field, when set.
pub open spec fn name_seg(d: DatePicker) -> Seq<u8> {
    opt_string_field_bytes(",\"name\":".spec_bytes(), d.name)
}

/// The `required` field, when set.
pub open spec fn required_seg(d: DatePicker) -> Seq<u8> {
    opt_bool_field_bytes(",\"required\":".spec_bytes(), d.required)
}

/// The `disabled` field, when set.
pub open spec fn disabled_seg(d: DatePicker) -> Seq<u8> {
    opt_bool_field_bytes(",\"disabled\":".spec_bytes(), d.disabled)
}

/// The `placeholder` field, when set.
pub open spec fn placeholder_seg(d: DatePicker) -> Seq<u8> {
    match d.placeholder {
        Option::None => Seq::empty(),
        Option::Some(p) => ",\"placeholder\":".spec_bytes() + plain_text_bytes(p),
    }
}

/// The `width` field, when set.
pub open spec fn width_seg(d: DatePicker) -> Seq<u8> {
    opt_string_field_bytes(",\"width\":".spec_bytes(), d.width)
}

/// The `initial_date` field, when set.
pub open spec fn initial_date_seg(d: DatePicker) -> Seq<u8> {
    opt_string_field_bytes(",\"initial_date\":".spec_bytes(), d.initial_date)
}

/// The `value` field: `null`, or the object of the key-value table.
pub open spec fn value_seg(d: DatePicker) -> Seq<u8> {
    ",\"value\":".spec_bytes() + (match d.value {
        Option::None => "null".spec_bytes(),
        Option::Some(ps) => "{".spec_bytes() + kv_members_bytes(ps@) + "}".spec_bytes(),
    })
}

/// The `confirm` field, when set.
pub open spec fn confirm_seg(d: DatePicker) -> Seq<u8> {
    match d.confirm {
        Option::None => Seq::empty(),
        Option::Some(c) => ",\"confirm\":".spec_bytes() + input_confirm_bytes(c),
    }
}

/// A JSON boolean.
pub open spec fn bool_bytes(b: bool) -> Seq<u8> {
    if b {
        "true".spec_bytes()
    } else {
        "false".spec_bytes()
    }
}

/// The serialized date picker: the tag always, each optional field only when
/// set, and the value table — `null` when none was given.
pub open spec fn date_picker_bytes(d: DatePicker) -> Seq<u8> {
    "{\"tag\":".spec_bytes() + json_string(encode_utf8(d.tag@)) + name_seg(d) + required_seg(d)
        + disabled_seg(d) + placeholder_seg(d) + width_seg(d) + initial_date_seg(d) + value_seg(d)
        + confirm_seg(d) + "}".spec_bytes()
}

fn push_plain_text(out: &mut Vec<u8>, p: &PlainText)
    ensures
        final(out)@ == old(out)@ + plain_text_bytes(*p),
{
    push_lit(out, "{\"tag\":");
    push_json_string(out, p.tag.as_str());
    push_lit(out, ",\"content\":");
    push_json_string(out, p.content.as_str());
    push_lit(out, "}");
    proof {
        assert(out@ =~= old(out)@ + plain_text_bytes(*p));
    }
}

fn push_opt_string_field(out: &mut Vec<u8>, prefix: &str, o: &Option<String>)
    ensures
        final(out)@ == old(out)@ + opt_string_field_bytes(prefix.spec_bytes(), *o),
{
    match o {
        Option::None => {},
        Option::Some(s) => {
            push_lit(out, prefix);
            push_json_string(out, s.as_str());
        },
    }
}

fn push_opt_bool_field(out: &mut Vec<u8>, prefix: &str, o: &Option<bool>)
    ensures
        final(out)@ == old(out)@ + opt_bool_field_bytes(prefix.spec_bytes(), *o),
{
    match o {
        Option::None => {},
        Option::Some(b) => {
            push_lit(out, prefix);
            push_lit(out, if *b { "true" } else { "false" });
        },
    }
}

fn push_placeholder_field(out: &mut Vec<u8>, o: &Option<PlainText>)
    ensures
        final(out)@ == old(out)@ + (match *o {
            Option::None => Seq::<u8>::empty(),
            Option::Some(p) => ",\"placeholder\":".spec_bytes() + plain_text_bytes(p),
        }),
{
    match o {
        Option::None => {},
        Option::Some(p) => {
            push_lit(out, ",\"placeholder\":");
            push_plain_text(out, p);
        },
    }
}

fn push_value_field(out: &mut Vec<u8>, o: &Option<Vec<(String, String)>>)
    ensures
        final(out)@ == old(out)@ + ",\"value\":".spec_bytes() + (match *o {
            Option::None => "null".spec_bytes(),
            Option::Some(ps) => "{".spec_bytes() + kv_members_bytes(ps@) + "}".spec_bytes(),
        }),
{
    push_lit(out, ",\"value\":");
    match o {
        Option::None => push_lit(out, "null"),
        Option::Some(ps) => {
            push_lit(out, "{");
            let ghost start = out@;
            let mut i: usize = 0;
            while i < ps.len()
                invariant
                    i <= ps@.len(),
                    out@ == start + kv_members_bytes(ps@.take(i as int)),
                decreases ps@.len() - i,
            {
                if i > 0 {
                    push_lit(out, ",");
                }
                push_json_string(out, ps[i].0.as_str());
                push_lit(out, ":");
                push_json_string(out, ps[i].1.as_str());
                proof {
                    assert(ps@.take(i + 1 as int).drop_last() =~= ps@.take(i as int));
                    assert(ps@.take(i + 1 as int).last() == ps@[i as int]);
                    if i == 0 {
                        assert(ps@.take(1).len() == 1);
                    }
                    assert(out@ =~= start + kv_members_bytes(ps@.take(i + 1 as int)));
                }
                i = i + 1;
            }
            proof {
                assert(ps@.take(ps@.len() as int) =~= ps@);
            }
            push_lit(out, "}");
        },
    }
    proof {
        assert(out@ =~= old(out)@ + ",\"value\":".spec_bytes() + (match *o {
            Option::None => "null".spec_bytes(),
            Option::Some(ps) => "{".spec_bytes() + kv_members_bytes(ps@) + "}".spec_bytes(),
        }));
    }
}

fn push_confirm_field(out: &mut Vec<u8>, o: &Option<InputConfirm>)
    ensures
        final(out)@ == old(out)@ + (match *o {
            Option::None => Seq::<u8>::empty(),
            Option::Some(c) => ",\"confirm\":".spec_bytes() + input_confirm_bytes(c),
        }),
{
    match o {
        Option::None => {},
        Option::Some(c) => {
            push_lit(out, ",\"confirm\":");
            push_lit(out, "{\"title\":");
            push_plain_text(out, &c.title);
            push_lit(out, ",\"text\":");
            push_plain_text(out, &c.text);
            push_lit(out, "}");
            proof {
                assert(out@ =~= old(out)@ + ",\"confirm\":".spec_bytes() + input_confirm_bytes(
                    *c,
                ));
            }
        },
    }
}

impl DatePicker {
    /// A fresh date picker: only the fixed tag and an absent value table.
    pub fn new() -> (r: DatePicker)
        ensures
            r.tag@ == "date_picker"@,
            r.name is None,
            r.required is None,
            r.disabled is None,
            r.placeholder is None,
            r.width is None,
            r.initial_date is None,
            r.value is None,
            r.confirm is None,
    {
        DatePicker {
            tag: "date_picker".to_owned(),
            name: None,
            required: None,
            disabled: None,
            placeholder: None,
            width: None,
            initial_date: None,
            value: None,
            confirm: None,
        }
    }

    /// The identifier under which a form reports this picker's data.
    pub fn name(self, name: &str) -> (r: DatePicker)
        ensures
            r.name matches Some(s) && s@ == name@,
            r.tag == self.tag,
            r.required == self.required,
            r.disabled == self.disabled,
            r.placeholder == self.placeholder,
            r.width == self.width,
            r.initial_date == self.initial_date,
            r.value == self.value,
            r.confirm == self.confirm,
    {
        DatePicker { name: Some(name.to_owned()), ..self }
    }

    /// Whether a date must be picked before the form submits.
    pub fn required(self, required: bool) -> (r: DatePicker)
        ensures
            r == (DatePicker { required: Some(required), ..self }),
    {
        DatePicker { required: Some(required), ..self }
    }

    /// Whether the picker is disabled.
    pub fn disabled(self, disabled: bool) -> (r: DatePicker)
        ensures
            r == (DatePicker { disabled: Some(disabled), ..self }),
    {
        DatePicker { disabled: Some(disabled), ..self }
    }

    /// The placeholder shown before a date is picked.
    pub fn placeholder(self, placeholder: PlainText) -> (r: DatePicker)
        ensures
            r == (DatePicker { placeholder: Some(placeholder), ..self }),
    {
        DatePicker { placeholder: Some(placeholder), ..self }
    }

    /// The width behaviour.
    pub fn width(self, width: &str) -> (r: DatePicker)
        ensures
            r.width matches Some(s) && s@ == width@,
            r.tag == self.tag,
            r.name == self.name,
            r.required == self.required,
            r.disabled == self.disabled,
            r.placeholder == self.placeholder,
            r.initial_date == self.initial_date,
            r.value == self.value,
            r.confirm == self.confirm,
    {
        DatePicker { width: Some(width.to_owned()), ..self }
    }

    /// The initially selected date, `yyyy-MM-dd`.
    pub fn initial_date(self, initial_date: &str) -> (r: DatePicker)
        ensures
            r.initial_date matches Some(s) && s@ == initial_date@,
            r.tag == self.tag,
            r.name == self.name,
            r.required == self.required,
            r.disabled == self.disabled,
            r.placeholder == self.placeholder,
            r.width == self.width,
            r.value == self.value,
            r.confirm == self.confirm,
    {
        DatePicker { initial_date: Some(initial_date.to_owned()), ..self }
    }

    /// The key-value table handed back on interaction.
    pub fn value(self, value: Vec<(String, String)>) -> (r: DatePicker)
        ensures
            r == (DatePicker { value: Some(value), ..self }),
    {
        DatePicker { value: Some(value), ..self }
    }

    /// The confirmation dialog shown on submit.
    pub fn confirm(self, confirm: InputConfirm) -> (r: DatePicker)
        ensures
            r == (DatePicker { confirm: Some(confirm), ..self }),
    {
        DatePicker { confirm: Some(confirm), ..self }
    }

    /// Serializes the picker to its exact wire bytes.
    #[verifier::rlimit(50)]
    pub fn to_json(&self) -> (r: Vec<u8>)
        ensures
            r@ == date_picker_bytes(*self),
    {
        let mut out: Vec<u8> = Vec::new();
        push_lit(&mut out, "{\"tag\":");
        push_json_string(&mut out, self.tag.as_str());
        push_opt_string_field(&mut out, ",\"name\":", &self.name);
        push_opt_bool_field(&mut out, ",\"required\":", &self.required);
        push_opt_bool_field(&mut out, ",\"disabled\":", &self.disabled);
        push_placeholder_field(&mut out, &self.placeholder);
        push_opt_string_field(&mut out, ",\"width\":", &self.width);
        push_opt_string_field(&mut out, ",\"initial_date\":", &self.initial_date);
        push_value_field(&mut out, &self.value);
        push_confirm_field(&mut out, &self.confirm);
        push_lit(&mut out, "}");
        proof {
            assert(out@ =~= date_picker_bytes(*self));
        }
        out
    }
}

} // verus!
