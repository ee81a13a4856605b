//! Record schemas: the elements of a schema with their constraints, and
//! their form as Spark fields.

use vstd::prelude::*;
use vstd::string::StringExecFns;
use crate::text::{
    all_digits,
    capped_value,
    chars_of,
    digits_only,
    digits_value,
    nat_text,
    push_nat,
    str_equal,
};
use crate::timestamp::TimestampOptions;

verus! {

/// One element of a schema: its name and type, the constraints that were
/// declared for it, and the elements below it.
#[derive(Debug)]
pub struct SchemaElement {
    pub id: String,
    pub name: String,
    pub data_type: Option<String>,
    pub min_occurs: Option<String>,
    pub max_occurs: Option<String>,
    pub min_length: Option<String>,
    pub max_length: Option<String>,
    pub min_exclusive: Option<String>,
    pub max_exclusive: Option<String>,
    pub min_inclusive: Option<String>,
    pub max_inclusive: Option<String>,
    pub pattern: Option<String>,
    pub fraction_digits: Option<String>,
    pub total_digits: Option<String>,
    pub values: Option<Vec<String>>,
    pub is_currency: bool,
    pub xpath: String,
    pub nullable: Option<bool>,
    pub elements: Vec<SchemaElement>,
}

/// A schema: the element at its root, with the namespace and the reading
/// of timestamps that apply to it.
#[derive(Debug)]
pub struct Schema {
    pub namespace: Option<String>,
    pub schema_element: SchemaElement,
    pub timestamp_options: Option<TimestampOptions>,
}

/// A field of a Spark schema. The metadata are pairs of name and value,
/// each name once.
#[derive(Debug)]
pub struct SparkField {
    pub field_name: String,
    pub field_type: String,
    pub nullable: bool,
    pub metadata: Option<Vec<(String, String)>>,
}

/// A Spark schema.
#[derive(Debug)]
pub struct SparkSchema {
    pub schema_type: String,
    pub fields: Vec<SparkField>,
}

/// The number that `s` denotes as an unsigned 32-bit integer: digits after
/// an optional plus sign. `None` for any other text and for a number that
/// does not fit.
pub open spec fn u32_of(s: Seq<char>) -> Option<int> {
    let body = if s.len() > 0 && s[0] == '+' {
        s.skip(1)
    } else {
        s
    };
    if body.len() == 0 || !all_digits(body) || digits_value(body) > u32::MAX {
        None
    } else {
        Some(digits_value(body) as int)
    }
}

/// Reads an unsigned 32-bit integer.
pub fn parse_u32(s: &str) -> (r: Option<u32>)
    ensures
        match r {
            Some(x) => u32_of(s@) == Some(x as int),
            None => u32_of(s@) is None,
        },
{
    let v = chars_of(s);
    let n = v.len();
    let start: usize = if n > 0 && v[0] == '+' {
        1
    } else {
        0
    };
    assert(v@.subrange(start as int, n as int) =~= if start == 1 {
        v@.skip(1)
    } else {
        v@
    });
    if start == n || !digits_only(&v, start, n) {
        return None;
    }
    match capped_value(&v, start, n, u32::MAX as u128) {
        Some(m) => Some(m as u32),
        None => None,
    }
}

/// The texts of `values` in a row, with `separator` between each two.
pub open spec fn joined(values: Seq<String>, separator: Seq<char>) -> Seq<char>
    decreases values.len(),
{
    if values.len() == 0 {
        Seq::empty()
    } else if values.len() == 1 {
        values[0]@
    } else {
        joined(values.drop_last(), separator) + separator + values.last()@
    }
}

/// The texts of `values` in a row, with `separator` between each two.
pub fn join(values: &Vec<String>, separator: &str) -> (r: String)
    ensures
        r@ == joined(values@, separator@),
{
    let mut out = String::new();
    let mut i: usize = 0;
    while i < values.len()
        invariant
            i <= values.len(),
            out@ == joined(values@.take(i as int), separator@),
        decreases values.len() - i,
    {
        let ghost head = values@.take(i as int);
        let ghost next = values@.take(i + 1);
        assert(next.drop_last() =~= head);
        assert(next.last() == values@[i as int]);
        if i > 0 {
            out.append(separator);
        } else {
            assert(next[0] == values@[0]);
        }
        out.append(values[i].as_str());
        i += 1;
    }
    assert(values@.take(values.len() as int) =~= values@);
    out
}

/// The pair of `name` and `value`, if there is a value.
pub open spec fn entry_of(name: Seq<char>, value: Option<String>) -> Seq<(Seq<char>, Seq<char>)> {
    match value {
        Some(v) => seq![(name, v@)],
        None => Seq::empty(),
    }
}

/// Names and values of the pairs in `pairs`.
pub open spec fn pair_views(pairs: Seq<(String, String)>) -> Seq<(Seq<char>, Seq<char>)> {
    Seq::new(pairs.len(), |i: int| (pairs[i].0@, pairs[i].1@))
}

/// Appends the pair of `name` and `value` to `out`, if there is a value.
fn push_entry(out: &mut Vec<(String, String)>, name: &str, value: &Option<String>)
    ensures
        pair_views(final(out)@) == pair_views(old(out)@) + entry_of(name@, *value),
{
    match value {
        Some(v) => {
            out.push((name.to_owned(), v.clone()));
            assert(pair_views(out@) =~= pair_views(old(out)@) + entry_of(name@, *value));
        },
        None => {
            assert(pair_views(out@) =~= pair_views(old(out)@) + entry_of(name@, *value));
        },
    }
}

impl SchemaElement {
    /// The constraints of the element as pairs of name and value, those
    /// that are declared, in a fixed order: occurrence and length limits,
    /// value limits, pattern, the allowed values joined by commas, and the
    /// currency mark.
    pub open spec fn metadata(self) -> Seq<(Seq<char>, Seq<char>)> {
        entry_of("maxOccurs"@, self.max_occurs) + entry_of("minLength"@, self.min_length)
            + entry_of("maxLength"@, self.max_length) + entry_of(
            "minExclusive"@,
            self.min_exclusive,
        ) + entry_of("maxExclusive"@, self.max_exclusive) + entry_of(
            "minInclusive"@,
            self.min_inclusive,
        ) + entry_of("maxInclusive"@, self.max_inclusive) + entry_of("pattern"@, self.pattern)
            + (match self.values {
            Some(values) => seq![("values"@, joined(values@, ","@))],
            None => Seq::empty(),
        }) + (if self.is_currency {
            seq![("isCurrency"@, "true"@)]
        } else {
            Seq::empty()
        })
    }

    /// The Spark type of a decimal with the given digits: `decimal(p, s)`
    /// with precision and scale read from the texts, 0 for a text that is no
    /// number.
    pub open spec fn decimal_type(total_digits: Seq<char>, fraction_digits: Seq<char>) -> Seq<char> {
        let precision = match u32_of(total_digits) {
            Some(p) => p as nat,
            None => 0,
        };
        let scale = match u32_of(fraction_digits) {
            Some(s) => s as nat,
            None => 0,
        };
        "decimal("@ + nat_text(precision) + ", "@ + nat_text(scale) + ")"@
    }

    /// The Spark type of the element. An element without a type is a
    /// string; a type that Spark does not know under another name is passed
    /// on as it is.
    pub open spec fn spark_type(self) -> Seq<char> {
        match self.data_type {
            None => "string"@,
            Some(t) => if t@ == "decimal"@ {
                match (self.total_digits, self.fraction_digits) {
                    (Some(total), Some(fraction)) => Self::decimal_type(total@, fraction@),
                    _ => "decimal"@,
                }
            } else if t@ == "int"@ || t@ == "integer"@ {
                "integer"@
            } else if t@ == "dateTime"@ {
                "timestamp"@
            } else {
                t@
            },
        }
    }

    /// The constraints of the element as pairs of name and value.
    pub fn to_metadata(&self) -> (metadata: Vec<(String, String)>)
        ensures
            pair_views(metadata@) == self.metadata(),
    {
        let mut metadata: Vec<(String, String)> = Vec::new();
        assert(pair_views(metadata@) =~= Seq::empty());
        push_entry(&mut metadata, "maxOccurs", &self.max_occurs);
        push_entry(&mut metadata, "minLength", &self.min_length);
        push_entry(&mut metadata, "maxLength", &self.max_length);
        push_entry(&mut metadata, "minExclusive", &self.min_exclusive);
        push_entry(&mut metadata, "maxExclusive", &self.max_exclusive);
        push_entry(&mut metadata, "minInclusive", &self.min_inclusive);
        push_entry(&mut metadata, "maxInclusive", &self.max_inclusive);
        push_entry(&mut metadata, "pattern", &self.pattern);
        let ghost constraints = pair_views(metadata@);
        assert(constraints =~= entry_of("maxOccurs"@, self.max_occurs) + entry_of(
            "minLength"@,
            self.min_length,
        ) + entry_of("maxLength"@, self.max_length) + entry_of(
            "minExclusive"@,
            self.min_exclusive,
        ) + entry_of("maxExclusive"@, self.max_exclusive) + entry_of(
            "minInclusive"@,
            self.min_inclusive,
        ) + entry_of("maxInclusive"@, self.max_inclusive) + entry_of("pattern"@, self.pattern));
        match &self.values {
            Some(values) => {
                metadata.push(("values".to_owned(), join(values, ",")));
                assert(pair_views(metadata@) =~= constraints + seq![
                    ("values"@, joined(values@, ","@)),
                ]);
            },
            None => {
                assert(pair_views(metadata@) =~= constraints + Seq::empty());
            },
        }
        let ghost with_values = pair_views(metadata@);
        if self.is_currency {
            metadata.push(("isCurrency".to_owned(), "true".to_owned()));
            assert(pair_views(metadata@) =~= with_values + seq![("isCurrency"@, "true"@)]);
        } else {
            assert(pair_views(metadata@) =~= with_values + Seq::empty());
        }
        metadata
    }

    /// The Spark type of a decimal with the given digits.
    fn decimal_spark_type(total_digits: &str, fraction_digits: &str) -> (r: String)
        ensures
            r@ == Self::decimal_type(total_digits@, fraction_digits@),
    {
        let precision: u32 = match parse_u32(total_digits) {
            Some(p) => p,
            None => 0,
        };
        let scale: u32 = match parse_u32(fraction_digits) {
            Some(s) => s,
            None => 0,
        };
        let mut out = String::from_str("decimal(");
        push_nat(&mut out, precision as u64);
        out.append(", ");
        push_nat(&mut out, scale as u64);
        out.append(")");
        out
    }

    /// The Spark type of the element.
    fn spark_field_type(&self) -> (r: String)
        ensures
            r@ == self.spark_type(),
    {
        match &self.data_type {
            None => String::from_str("string"),
            Some(t) => {
                if str_equal(t.as_str(), "decimal") {
                    match (&self.total_digits, &self.fraction_digits) {
                        (Some(total), Some(fraction)) => Self::decimal_spark_type(
                            total.as_str(),
                            fraction.as_str(),
                        ),
                        _ => String::from_str("decimal"),
                    }
                } else if str_equal(t.as_str(), "int") || str_equal(t.as_str(), "integer") {
                    String::from_str("integer")
                } else if str_equal(t.as_str(), "dateTime") {
                    String::from_str("timestamp")
                } else {
                    t.clone()
                }
            },
        }
    }

    /// The element as a Spark field: its name, its Spark type, whether it
    /// may be missing (it may, unless declared otherwise), and its
    /// constraints as metadata. The conversion never fails.
    pub fn to_spark(&self) -> (r: Result<SparkField, String>)
        ensures
            r matches Ok(field) && field.field_name@ == self.name@ && field.field_type@
                == self.spark_type() && field.nullable == (match self.nullable {
                Some(b) => b,
                None => true,
            }) && (field.metadata matches Some(metadata) && pair_views(metadata@)
                == self.metadata()),
    {
        let field_type = self.spark_field_type();
        let nullable = match self.nullable {
            Some(b) => b,
            None => true,
        };
        Ok(
            SparkField {
                field_name: self.name.clone(),
                field_type,
                nullable,
                metadata: Some(self.to_metadata()),
            },
        )
    }
}

impl SparkSchema {
    pub fn new(schema_type: String, fields: Vec<SparkField>) -> (r: Self)
        ensures
            r.schema_type == schema_type,
            r.fields == fields,
    {
        SparkSchema { schema_type, fields }
    }
}

impl Schema {
    pub fn new(
        namespace: Option<String>,
        schema_element: SchemaElement,
        timestamp_options: Option<TimestampOptions>,
    ) -> (r: Self)
        ensures
            r.namespace == namespace,
            r.schema_element == schema_element,
            r.timestamp_options == timestamp_options,
    {
        Schema { namespace, schema_element, timestamp_options }
    }

    /// The `i`-th field of `fields` is the Spark form of the `i`-th of
    /// `elements`.
    pub open spec fn fields_of(fields: Seq<SparkField>, elements: Seq<SchemaElement>) -> bool {
        &&& fields.len() == elements.len()
        &&& forall|i: int|
            0 <= i < fields.len() ==> {
                &&& (#[trigger] fields[i]).field_name@ == elements[i].name@
                &&& fields[i].field_type@ == elements[i].spark_type()
                &&& fields[i].nullable == (match elements[i].nullable {
                    Some(b) => b,
                    None => true,
                })
                &&& (fields[i].metadata matches Some(metadata) && pair_views(metadata@)
                    == elements[i].metadata())
            }
    }

    /// The schema as a Spark schema: a `struct` with one field for each
    /// element below the root, in their order. The conversion never fails.
    pub fn to_spark(&self) -> (r: Result<SparkSchema, String>)
        ensures
            r matches Ok(schema) && schema.schema_type@ == "struct"@ && Self::fields_of(
                schema.fields@,
                self.schema_element.elements@,
            ),
    {
        let mut fields: Vec<SparkField> = Vec::new();
        let elements = &self.schema_element.elements;
        let mut i: usize = 0;
        while i < elements.len()
            invariant
                i <= elements.len(),
                Self::fields_of(fields@, elements@.take(i as int)),
            decreases elements.len() - i,
        {
            match elements[i].to_spark() {
                Ok(field) => {
                    fields.push(field);
                },
                Err(e) => {
                    return Err(e);
                },
            }
            i += 1;
        }
        assert(elements@.take(elements.len() as int) =~= elements@);
        Ok(SparkSchema::new(String::from_str("struct"), fields))
    }
}

} // verus!
