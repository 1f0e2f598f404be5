//! The structured argument payload a tool receives. A tool call's arguments
//! arrive as JSON text; decoding is delegated to `serde_json`, and the tools
//! themselves only ever read named string fields of the decoded object.

use vstd::prelude::*;
use crate::text::str_eq;

verus! {

/// One named argument: its field name, and its value when the field holds a
/// string (`None` when the field holds any other kind of JSON value).
pub struct ArgField {
    pub name: String,
    pub value: Option<String>,
}

impl View for ArgField {
    type V = (Seq<char>, Option<Seq<char>>);

    open spec fn view(&self) -> (Seq<char>, Option<Seq<char>>) {
        (
            self.name@,
            match self.value {
                Some(s) => Some(s@),
                None => None,
            },
        )
    }
}

/// The decoded argument object handed to a tool: its fields, in decoding
/// order.
pub struct ToolArgs {
    pub fields: Vec<ArgField>,
}

impl View for ToolArgs {
    type V = Seq<(Seq<char>, Option<Seq<char>>)>;

    open spec fn view(&self) -> Seq<(Seq<char>, Option<Seq<char>>)> {
        self.fields@.map_values(|f: ArgField| f@)
    }
}

/// What `serde_json` decodes from a tool call's raw argument text: `None`
/// when the text is not valid JSON; otherwise the fields of the top-level
/// object, each name paired with its string value (`None` for a field whose
/// value is not a string), and the empty sequence when the top-level value is
/// not an object.
pub uninterp spec fn json_string_fields(raw: Seq<char>) -> Option<
    Seq<(Seq<char>, Option<Seq<char>>)>,
>;

/// Relies on `serde_json::from_str` and `serde_json::Value`: decodes the
/// argument text into the top-level object's fields. The decoding is a
/// function of the text alone.
#[verifier::external_body]
pub fn parse_args(raw: &str) -> (r: Option<ToolArgs>)
    ensures
        json_string_fields(raw@) == match r {
            Some(a) => Some(a@),
            None => None,
        },
{
    let v: serde_json::Value = match serde_json::from_str(raw) {
        Ok(v) => v,
        Err(_) => return None,
    };
    let mut fields: Vec<ArgField> = Vec::new();
    if let serde_json::Value::Object(map) = v {
        for (name, val) in map {
            let value = match val {
                serde_json::Value::String(s) => Some(s),
                _ => None,
            };
            fields.push(ArgField { name, value });
        }
    }
    Some(ToolArgs { fields })
}

/// The string value of the first field named `key`: `None` when no field has
/// that name or the first such field does not hold a string.
pub open spec fn lookup_str(
    fields: Seq<(Seq<char>, Option<Seq<char>>)>,
    key: Seq<char>,
) -> Option<Seq<char>>
    decreases fields.len(),
{
    if fields.len() == 0 {
        None
    } else if fields[0].0 == key {
        fields[0].1
    } else {
        lookup_str(fields.drop_first(), key)
    }
}

impl ToolArgs {
    /// Looks the named field up, yielding its string value if it has one.
    pub fn get_str(&self, key: &str) -> (r: Option<&String>)
        ensures
            match r {
                Some(s) => lookup_str(self@, key@) == Some(s@),
                None => lookup_str(self@, key@) is None,
            },
    {
        let mut i: usize = 0;
        proof {
            assert(self@.skip(0) =~= self@);
        }
        while i < self.fields.len()
            invariant
                i <= self.fields@.len(),
                self@.len() == self.fields@.len(),
                lookup_str(self@, key@) == lookup_str(self@.skip(i as int), key@),
            decreases self.fields@.len() - i,
        {
            proof {
                assert(self@.skip(i as int)[0] == self@[i as int]);
                assert(self@.skip(i as int).drop_first() =~= self@.skip(i + 1 as int));
                assert(self@[i as int] == self.fields@[i as int]@);
            }
            let f = &self.fields[i];
            if str_eq(f.name.as_str(), key) {
                return match &f.value {
                    Some(s) => Some(s),
                    None => None,
                };
            }
            i += 1;
        }
        proof {
            assert(self@.skip(self@.len() as int) =~= Seq::<(Seq<char>, Option<Seq<char>>)>::empty());
        }
        None
    }
}

} // verus!
