//! Materialisation of ad-hoc query results, where every value comes back as text.
use vstd::prelude::*;

verus! {

/// One column of a text row: its name, and its value as text or `None` for SQL NULL.
pub struct TextField {
    pub name: String,
    pub value: Option<String>,
}

/// A message of the text query protocol.
pub enum QueryMessage {
    /// A result row, with its columns in the order the server sent them.
    Row(Vec<TextField>),
    /// The end of a statement, with the number of rows it affected.
    CommandComplete(u64),
    /// Any other message.
    Other,
}

pub type FieldView = (Seq<char>, Option<Seq<char>>);

pub open spec fn field_view(f: TextField) -> FieldView {
    (
        f.name@,
        match f.value {
            Some(v) => Some(v@),
            None => None,
        },
    )
}

pub open spec fn fields_view(fs: Seq<TextField>) -> Seq<FieldView> {
    fs.map_values(|f: TextField| field_view(f))
}

/// No two entries share a name.
pub open spec fn distinct_names(entries: Seq<FieldView>) -> bool {
    forall|a: int, b: int| 0 <= a < b < entries.len() ==> entries[a].0 != entries[b].0
}

/// Sets a name's value in an object: an entry of that name keeps its place and
/// takes the new value; a new name is appended.
pub open spec fn insert_field(entries: Seq<FieldView>, f: FieldView) -> Seq<FieldView> {
    if exists|j: int| 0 <= j < entries.len() && entries[j].0 == f.0 {
        let j = choose|j: int| 0 <= j < entries.len() && entries[j].0 == f.0;
        entries.update(j, f)
    } else {
        entries.push(f)
    }
}

/// The object built by setting each field in turn.
pub open spec fn object_of(fields: Seq<FieldView>) -> Seq<FieldView>
    decreases fields.len(),
{
    if fields.len() == 0 {
        Seq::empty()
    } else {
        insert_field(object_of(fields.drop_last()), fields.last())
    }
}

/// The objects for the row messages among `messages`, in order; other messages
/// give nothing.
pub open spec fn raw_rows_of(messages: Seq<QueryMessage>) -> Seq<Seq<FieldView>>
    decreases messages.len(),
{
    if messages.len() == 0 {
        Seq::empty()
    } else {
        raw_rows_of(messages.drop_last()) + match messages.last() {
            QueryMessage::Row(fields) => seq![object_of(fields_view(fields@))],
            _ => Seq::empty(),
        }
    }
}

/// One result row as an object from column names to text values.
pub struct RowObject {
    entries: Vec<TextField>,
}

impl View for RowObject {
    type V = Seq<FieldView>;

    closed spec fn view(&self) -> Seq<FieldView> {
        fields_view(self.entries@)
    }
}

impl RowObject {
    /// The entries, in order.
    pub fn entries(&self) -> (r: &Vec<TextField>)
        ensures
            fields_view(r@) == self@,
    {
        &self.entries
    }

    /// The entries, in order, taken out of the object.
    pub fn into_entries(self) -> (r: Vec<TextField>)
        ensures
            fields_view(r@) == self@,
    {
        self.entries
    }

    /// Builds the object for a row by setting each field in turn, so that of two
    /// columns with one name the later value stands, in the earlier place.
    pub fn from_fields(fields: Vec<TextField>) -> (r: RowObject)
        ensures
            r@ == object_of(fields_view(fields@)),
            distinct_names(r@),
    {
        let ghost all = fields_view(fields@);
        let mut entries: Vec<TextField> = Vec::new();
        for f in it: fields
            invariant
                fields_view(it.seq()) == all,
                fields_view(entries@) == object_of(all.take(it.index() as int)),
                distinct_names(fields_view(entries@)),
        {
            let ghost n = it.index() as int;
            let ghost before = fields_view(entries@);
            let ghost fv = field_view(f);
            proof {
                assert(all.take(n + 1).drop_last() =~= all.take(n));
                assert(all[n] == field_view(it.seq()[n]));
                assert(all.take(n + 1).last() == fv);
            }
            let mut j: usize = 0;
            while j < entries.len() && !(entries[j].name == f.name)
                invariant
                    j <= entries.len(),
                    fields_view(entries@) == before,
                    fv == field_view(f),
                    forall|k: int| 0 <= k < j ==> before[k].0 != fv.0,
                decreases entries.len() - j,
            {
                assert(before[j as int] == field_view(entries@[j as int]));
                j = j + 1;
            }
            if j < entries.len() {
                proof {
                    assert(before[j as int] == field_view(entries@[j as int]));
                    assert(before[j as int].0 == fv.0);
                    let c = choose|c: int| 0 <= c < before.len() && before[c].0 == fv.0;
                    assert(c == j as int);
                }
                entries.set(j, f);
                assert(fields_view(entries@) =~= insert_field(before, fv));
            } else {
                entries.push(f);
                assert(fields_view(entries@) =~= insert_field(before, fv));
            }
        }
        assert(all.take(all.len() as int) =~= all);
        RowObject { entries }
    }
}

pub open spec fn objects_view(rs: Seq<RowObject>) -> Seq<Seq<FieldView>> {
    rs.map_values(|r: RowObject| r@)
}

/// The rows of every statement's result, in order, each as an object of text
/// values keyed by column name; messages that are not rows, such as a
/// statement's completion, are passed over.
pub fn raw_rows(messages: Vec<QueryMessage>) -> (r: Vec<RowObject>)
    ensures
        objects_view(r@) == raw_rows_of(messages@),
{
    let ghost all = messages@;
    let mut rows: Vec<RowObject> = Vec::new();
    for m in it: messages
        invariant
            it.seq() == all,
            objects_view(rows@) == raw_rows_of(all.take(it.index() as int)),
    {
        let ghost n = it.index() as int;
        let ghost m0 = m;
        proof {
            assert(all.take(n + 1).drop_last() =~= all.take(n));
            assert(all.take(n + 1).last() == m0);
        }
        match m {
            QueryMessage::Row(fields) => {
                let obj = RowObject::from_fields(fields);
                rows.push(obj);
            },
            _ => {},
        }
        assert(objects_view(rows@) =~= raw_rows_of(all.take(n + 1)));
    }
    assert(all.take(all.len() as int) =~= all);
    rows
}

} // verus!
