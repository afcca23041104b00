use vstd::prelude::*;
use crate::error::TaskError;
use crate::model::{PropertyValue, Record, RichText};

verus! {

/// The first binding of `name` in an association list of properties, if
/// any.
pub open spec fn lookup_property(
    properties: Seq<(String, PropertyValue)>,
    name: Seq<char>,
) -> Option<PropertyValue>
    decreases properties.len(),
{
    if properties.len() == 0 {
        None
    } else if properties.first().0@ == name {
        Some(properties.first().1)
    } else {
        lookup_property(properties.drop_first(), name)
    }
}

/// The title this library extracts from a record, or the exact failure
/// message, as a mathematical function of the record. In strict order:
/// a missing "Name" property, a "Name" that is not a title, an empty
/// rich-text sequence, and a first rich-text run that is not plain text
/// each fail fast with their own message; otherwise the result is the
/// first run's content, unmodified. No other element of the title
/// sequence is inspected.
pub open spec fn extracted_title(record: Record) -> Result<Seq<char>, Seq<char>> {
    match lookup_property(record.properties@, "Name"@) {
        None => Err("Unable to find a Name on struct"@),
        Some(value) => match value {
            PropertyValue::Title { title } => {
                if title@.len() == 0 {
                    Err("No title for item!"@)
                } else {
                    match title@.first() {
                        RichText::Text { content } => Ok(content@),
                        RichText::Unsupported => Err("Title element is not plain text"@),
                    }
                }
            },
            PropertyValue::Unsupported => Err("Name property is not a title"@),
        },
    }
}

/// An executable outcome agrees with its model: a title with exactly the
/// modelled characters, or an error with exactly the modelled message.
pub open spec fn outcome_matches(
    outcome: Result<String, TaskError>,
    model: Result<Seq<char>, Seq<char>>,
) -> bool {
    match (outcome, model) {
        (Ok(title), Ok(content)) => title@ == content,
        (Err(error), Err(message)) => error.message@ == message,
        _ => false,
    }
}

/// The first binding of `name` among `properties`, by reference.
fn find_property<'a>(
    properties: &'a Vec<(String, PropertyValue)>,
    name: &String,
) -> (found: Option<&'a PropertyValue>)
    ensures
        match found {
            Some(value) => lookup_property(properties@, name@) == Some(*value),
            None => lookup_property(properties@, name@) is None,
        },
{
    let mut i: usize = 0;
    proof {
        assert(properties@.skip(0) =~= properties@);
    }
    while i < properties.len()
        invariant
            i <= properties.len(),
            lookup_property(properties@, name@) == lookup_property(
                properties@.skip(i as int),
                name@,
            ),
        decreases properties.len() - i,
    {
        proof {
            assert(properties@.skip(i as int).first() == properties@[i as int]);
        }
        if properties[i].0 == *name {
            return Some(&properties[i].1);
        }
        proof {
            assert(properties@.skip(i as int).drop_first() =~= properties@.skip(i as int + 1));
        }
        i = i + 1;
    }
    proof {
        assert(properties@.skip(properties@.len() as int) =~= Seq::<(String, PropertyValue)>::empty());
    }
    None
}

/// Extracts the task title from one fetched record, or fails fast with a
/// precise error. A title is returned only when it originates from a
/// plain-text run at the head of a `Title` value bound to the key "Name";
/// every deviation from that shape is a hard failure, never coerced.
pub fn extract_title(record: &Record) -> (outcome: Result<String, TaskError>)
    ensures
        outcome_matches(outcome, extracted_title(*record)),
{
    let name_key: String = "Name".to_owned();
    match find_property(&record.properties, &name_key) {
        None => Err(TaskError::from_text("Unable to find a Name on struct")),
        Some(value) => match value {
            PropertyValue::Title { title } => {
                if title.len() == 0 {
                    Err(TaskError::from_text("No title for item!"))
                } else {
                    match &title[0] {
                        RichText::Text { content } => Ok(content.clone()),
                        RichText::Unsupported => Err(
                            TaskError::from_text("Title element is not plain text"),
                        ),
                    }
                }
            },
            PropertyValue::Unsupported => Err(
                TaskError::from_text("Name property is not a title"),
            ),
        },
    }
}

/// A successful extraction names its provenance: the returned characters
/// are exactly the content of the first rich-text run, a plain-text one,
/// of the `Title` value bound to "Name". A title never arises from any
/// other shape.
pub proof fn lemma_title_provenance(record: Record, content: Seq<char>)
    requires
        extracted_title(record) == Result::<Seq<char>, Seq<char>>::Ok(content),
    ensures
        ({
            &&& lookup_property(record.properties@, "Name"@) matches Some(value)
            &&& value matches PropertyValue::Title { title }
            &&& title@.len() > 0
            &&& title@.first() matches RichText::Text { content: found }
            &&& found@ == content
        }),
{
}

} // verus!
