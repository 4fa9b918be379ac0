use vstd::prelude::*;

verus! {

/// The host runtime's dynamic term, as this library sees it.
///
/// `nil`, `true` and `false` are atoms to the host runtime; they have their
/// own variants here, and `Atom` holds every other atom. Floats travel as
/// their decimal text. Pids, references, ports and funs are `Opaque`.
#[derive(Debug, PartialEq)]
pub enum Term {
    Nil,
    Boolean(bool),
    Atom(String),
    Integer(i128),
    Float(String),
    Binary(String),
    List(Vec<Term>),
    Tuple(Vec<Term>),
    Mapping(Vec<Entry>),
    Opaque,
}

/// The canonical intermediate document (a JSON-shaped value) that every
/// transportable native value is written as.
///
#[derive(Debug, PartialEq)]
pub enum Document {
    Null,
    Bool(bool),
    Int(i128),
    Float(String),
    Str(String),
    Sequence(Vec<Document>),
    Record(Vec<Field>),
}

/// One key-value pair of a host runtime map.
#[derive(Debug, PartialEq)]
pub struct Entry {
    pub key: Term,
    pub value: Term,
}

/// One named field of a record.
#[derive(Debug, PartialEq)]
pub struct Field {
    pub name: String,
    pub value: Document,
}

pub ghost enum TermModel {
    Nil,
    Boolean(bool),
    Atom(Seq<char>),
    Integer(int),
    Float(Seq<char>),
    Binary(Seq<char>),
    List(Seq<TermModel>),
    Tuple(Seq<TermModel>),
    Mapping(Seq<(TermModel, TermModel)>),
    Opaque,
}

pub ghost enum DocModel {
    Null,
    Bool(bool),
    Int(int),
    Float(Seq<char>),
    Str(Seq<char>),
    Sequence(Seq<DocModel>),
    Record(Seq<(Seq<char>, DocModel)>),
}

/// The mathematical value of a term.
pub open spec fn term_model(t: &Term) -> TermModel
    decreases t,
{
    match t {
        Term::Nil => TermModel::Nil,
        Term::Boolean(b) => TermModel::Boolean(*b),
        Term::Atom(a) => TermModel::Atom(a@),
        Term::Integer(n) => TermModel::Integer(*n as int),
        Term::Float(s) => TermModel::Float(s@),
        Term::Binary(s) => TermModel::Binary(s@),
        Term::List(v) => TermModel::List(
            Seq::new(
                v.len() as nat,
                |i: int|
                    if 0 <= i < v.len() {
                        term_model(&v[i])
                    } else {
                        TermModel::Nil
                    },
            ),
        ),
        Term::Tuple(v) => TermModel::Tuple(
            Seq::new(
                v.len() as nat,
                |i: int|
                    if 0 <= i < v.len() {
                        term_model(&v[i])
                    } else {
                        TermModel::Nil
                    },
            ),
        ),
        Term::Mapping(v) => TermModel::Mapping(
            Seq::new(
                v.len() as nat,
                |i: int|
                    if 0 <= i < v.len() {
                        (term_model(&v[i].key), term_model(&v[i].value))
                    } else {
                        (TermModel::Nil, TermModel::Nil)
                    },
            ),
        ),
        Term::Opaque => TermModel::Opaque,
    }
}

/// The mathematical value of a document.
pub open spec fn doc_model(d: &Document) -> DocModel
    decreases d,
{
    match d {
        Document::Null => DocModel::Null,
        Document::Bool(b) => DocModel::Bool(*b),
        Document::Int(n) => DocModel::Int(*n as int),
        Document::Float(s) => DocModel::Float(s@),
        Document::Str(s) => DocModel::Str(s@),
        Document::Sequence(v) => DocModel::Sequence(
            Seq::new(
                v.len() as nat,
                |i: int|
                    if 0 <= i < v.len() {
                        doc_model(&v[i])
                    } else {
                        DocModel::Null
                    },
            ),
        ),
        Document::Record(v) => DocModel::Record(
            Seq::new(
                v.len() as nat,
                |i: int|
                    if 0 <= i < v.len() {
                        (v[i].name@, doc_model(&v[i].value))
                    } else {
                        (Seq::empty(), DocModel::Null)
                    },
            ),
        ),
    }
}

impl View for Term {
    type V = TermModel;

    open spec fn view(&self) -> TermModel {
        term_model(self)
    }
}

impl View for Document {
    type V = DocModel;

    open spec fn view(&self) -> DocModel {
        doc_model(self)
    }
}

/// The term a document becomes: primitives map structurally, null becomes
/// `nil`, strings become binaries, sequences lists, and records maps keyed
/// by their field names as binaries.
pub open spec fn encode_model(d: DocModel) -> TermModel
    decreases d,
{
    match d {
        DocModel::Null => TermModel::Nil,
        DocModel::Bool(b) => TermModel::Boolean(b),
        DocModel::Int(n) => TermModel::Integer(n),
        DocModel::Float(s) => TermModel::Float(s),
        DocModel::Str(s) => TermModel::Binary(s),
        DocModel::Sequence(items) => TermModel::List(
            Seq::new(
                items.len(),
                |i: int|
                    if 0 <= i < items.len() {
                        encode_model(items[i])
                    } else {
                        TermModel::Nil
                    },
            ),
        ),
        DocModel::Record(fields) => TermModel::Mapping(
            Seq::new(
                fields.len(),
                |i: int|
                    if 0 <= i < fields.len() {
                        (TermModel::Binary(fields[i].0), encode_model(fields[i].1))
                    } else {
                        (TermModel::Nil, TermModel::Nil)
                    },
            ),
        ),
    }
}

/// The field name a map key stands for: a binary or an atom other than
/// `nil`, `true` and `false`.
pub open spec fn key_name(k: TermModel) -> Option<Seq<char>> {
    match k {
        TermModel::Binary(s) => Some(s),
        TermModel::Atom(a) => Some(a),
        _ => None,
    }
}

/// The document a term stands for, or `None` where the term has no such
/// shape: an opaque term, or a map with a key that is not a name. Tuples read as sequences; atoms as strings.
pub open spec fn decode_model(t: TermModel) -> Option<DocModel>
    decreases t,
{
    match t {
        TermModel::Nil => Some(DocModel::Null),
        TermModel::Boolean(b) => Some(DocModel::Bool(b)),
        TermModel::Atom(a) => Some(DocModel::Str(a)),
        TermModel::Integer(n) => Some(DocModel::Int(n)),
        TermModel::Float(s) => Some(DocModel::Float(s)),
        TermModel::Binary(s) => Some(DocModel::Str(s)),
        TermModel::List(items) => if forall|i: int|
            0 <= i < items.len() ==> decode_model(#[trigger] items[i]) is Some {
            Some(
                DocModel::Sequence(
                    Seq::new(
                        items.len(),
                        |i: int|
                            if 0 <= i < items.len() {
                                decode_model(items[i])->Some_0
                            } else {
                                DocModel::Null
                            },
                    ),
                ),
            )
        } else {
            None
        },
        TermModel::Tuple(items) => if forall|i: int|
            0 <= i < items.len() ==> decode_model(#[trigger] items[i]) is Some {
            Some(
                DocModel::Sequence(
                    Seq::new(
                        items.len(),
                        |i: int|
                            if 0 <= i < items.len() {
                                decode_model(items[i])->Some_0
                            } else {
                                DocModel::Null
                            },
                    ),
                ),
            )
        } else {
            None
        },
        TermModel::Mapping(entries) => if forall|i: int|
            0 <= i < entries.len() ==> key_name((#[trigger] entries[i]).0) is Some && decode_model(
                entries[i].1,
            ) is Some {
            Some(
                DocModel::Record(
                    Seq::new(
                        entries.len(),
                        |i: int|
                            if 0 <= i < entries.len() {
                                (key_name(entries[i].0)->Some_0, decode_model(entries[i].1)->Some_0)
                            } else {
                                (Seq::empty(), DocModel::Null)
                            },
                    ),
                ),
            )
        } else {
            None
        },
        TermModel::Opaque => None,
    }
}

/// Transcoding round trip: decoding what a document was encoded to gives the
/// document back, for primitives, absent values, sequences, records and any
/// nesting of them.
pub proof fn lemma_round_trip(d: DocModel)
    ensures
        decode_model(encode_model(d)) == Some(d),
    decreases d,
{
    match d {
        DocModel::Sequence(items) => {
            let enc = encode_model(d)->List_0;
            assert(enc.len() == items.len());
            assert forall|i: int| 0 <= i < items.len() implies decode_model(#[trigger] enc[i])
                == Some(items[i]) by {
                lemma_round_trip(items[i]);
                assert(enc[i] == encode_model(items[i]));
            }
            let back = decode_model(encode_model(d))->Some_0->Sequence_0;
            assert(back.len() == items.len());
            assert forall|i: int| 0 <= i < items.len() implies #[trigger] back[i] == items[i] by {
                assert(decode_model(enc[i]) == Some(items[i]));
            }
            assert(back =~= items);
        },
        DocModel::Record(fields) => {
            let enc = encode_model(d)->Mapping_0;
            assert(enc.len() == fields.len());
            assert forall|i: int| 0 <= i < fields.len() implies #[trigger] key_name(enc[i].0)
                == Some(fields[i].0) && decode_model(enc[i].1) == Some(fields[i].1) by {
                lemma_round_trip(fields[i].1);
            }
            let back = decode_model(encode_model(d))->Some_0->Record_0;
            assert(back =~= fields);
        },
        _ => {},
    }
}

/// A term that cannot be read as a document of the expected shape.
#[derive(Debug, Clone, Copy, PartialEq, Eq, Structural)]
pub struct SchemaError;

/// Writes each document of a sequence as a term.
fn encode_items(items: &Vec<Document>) -> (r: Vec<Term>)
    ensures
        r@.len() == items@.len(),
        forall|i: int| 0 <= i < items@.len() ==> r@[i]@ == encode_model(#[trigger] items@[i]@),
    decreases items,
{
    let mut out: Vec<Term> = Vec::new();
    let mut i: usize = 0;
    while i < items.len()
        invariant
            i <= items.len(),
            out@.len() == i,
            forall|j: int| 0 <= j < i ==> out@[j]@ == encode_model(#[trigger] items@[j]@),
        decreases items.len() - i,
    {
        let t = encode(&items[i]);
        out.push(t);
        i += 1;
    }
    out
}

/// Writes each field of a record as a map entry keyed by the field's name.
fn encode_fields(fields: &Vec<Field>) -> (r: Vec<Entry>)
    ensures
        r@.len() == fields@.len(),
        forall|i: int|
            0 <= i < fields@.len() ==> r@[i].key@ == TermModel::Binary((#[trigger] fields@[i]).name@)
                && r@[i].value@ == encode_model(fields@[i].value@),
    decreases fields,
{
    let mut out: Vec<Entry> = Vec::new();
    let mut i: usize = 0;
    while i < fields.len()
        invariant
            i <= fields.len(),
            out@.len() == i,
            forall|j: int|
                0 <= j < i ==> out@[j].key@ == TermModel::Binary((#[trigger] fields@[j]).name@)
                    && out@[j].value@ == encode_model(fields@[j].value@),
        decreases fields.len() - i,
    {
        let key = Term::Binary(fields[i].name.clone());
        let value = encode(&fields[i].value);
        out.push(Entry { key, value });
        i += 1;
    }
    out
}

/// Writes a document as a host runtime term.
pub fn encode(d: &Document) -> (t: Term)
    ensures
        t@ == encode_model(d@),
    decreases d,
{
    match d {
        Document::Null => Term::Nil,
        Document::Bool(b) => Term::Boolean(*b),
        Document::Int(n) => Term::Integer(*n),
        Document::Float(s) => Term::Float(s.clone()),
        Document::Str(s) => Term::Binary(s.clone()),
        Document::Sequence(items) => {
            let out = encode_items(items);
            let t = Term::List(out);
            proof {
                let m = d@->Sequence_0;
                assert(m.len() == items@.len());
                assert forall|i: int| 0 <= i < m.len() implies #[trigger] t@->List_0[i]
                    == encode_model(d@)->List_0[i] by {
                    assert(m[i] == items@[i]@);
                    assert(t@->List_0[i] == out@[i]@);
                }
                assert(t@->List_0 =~= encode_model(d@)->List_0);
            }
            t
        },
        Document::Record(fields) => {
            let out = encode_fields(fields);
            let t = Term::Mapping(out);
            proof {
                let m = d@->Record_0;
                assert(m.len() == fields@.len());
                assert forall|i: int| 0 <= i < m.len() implies #[trigger] t@->Mapping_0[i]
                    == encode_model(d@)->Mapping_0[i] by {
                    assert(m[i] == (fields@[i].name@, fields@[i].value@));
                    assert(t@->Mapping_0[i] == (out@[i].key@, out@[i].value@));
                }
                assert(t@->Mapping_0 =~= encode_model(d@)->Mapping_0);
            }
            t
        },
    }
}

/// The field name a map key stands for, if it is a binary or an atom.
fn key_of(k: &Term) -> (r: Option<String>)
    ensures
        r is Some <==> key_name(k@) is Some,
        r is Some ==> r->Some_0@ == key_name(k@)->Some_0,
{
    match k {
        Term::Binary(s) => Some(s.clone()),
        Term::Atom(a) => Some(a.clone()),
        _ => None,
    }
}

/// Reads the elements of a list or tuple as documents, or fails on the
/// first that is not one.
fn decode_items(items: &Vec<Term>) -> (r: Result<Vec<Document>, SchemaError>)
    ensures
        r is Ok <==> forall|i: int| 0 <= i < items@.len() ==> decode_model(#[trigger] items@[i]@) is Some,
        r is Ok ==> r->Ok_0@.len() == items@.len() && forall|i: int|
            0 <= i < items@.len() ==> Some(r->Ok_0@[i]@) == decode_model(#[trigger] items@[i]@),
    decreases items,
{
    let mut out: Vec<Document> = Vec::new();
    let mut i: usize = 0;
    while i < items.len()
        invariant
            i <= items.len(),
            out@.len() == i,
            forall|j: int| 0 <= j < i ==> Some((#[trigger] out@[j])@) == decode_model(items@[j]@),
        decreases items.len() - i,
    {
        match decode(&items[i]) {
            Ok(doc) => out.push(doc),
            Err(e) => {
                assert(decode_model(items@[i as int]@) is None);
                return Err(e);
            },
        }
        i += 1;
    }
    assert forall|i: int| 0 <= i < items@.len() implies decode_model(#[trigger] items@[i]@) is Some by {
        assert(Some(out@[i]@) == decode_model(items@[i]@));
    }
    Ok(out)
}

/// Reads the entries of a map as named fields, or fails on the first whose
/// key is not a name or whose value is not a document.
fn decode_entries(entries: &Vec<Entry>) -> (r: Result<Vec<Field>, SchemaError>)
    ensures
        r is Ok <==> forall|i: int|
            0 <= i < entries@.len() ==> key_name((#[trigger] entries@[i]).key@) is Some
                && decode_model(entries@[i].value@) is Some,
        r is Ok ==> r->Ok_0@.len() == entries@.len() && forall|i: int|
            0 <= i < entries@.len() ==> Some(r->Ok_0@[i].name@) == key_name(
                (#[trigger] entries@[i]).key@,
            ) && Some(r->Ok_0@[i].value@) == decode_model(entries@[i].value@),
    decreases entries,
{
    let mut out: Vec<Field> = Vec::new();
    let mut i: usize = 0;
    while i < entries.len()
        invariant
            i <= entries.len(),
            out@.len() == i,
            forall|j: int|
                0 <= j < i ==> Some(out@[j].name@) == key_name((#[trigger] entries@[j]).key@)
                    && Some(out@[j].value@) == decode_model(entries@[j].value@),
        decreases entries.len() - i,
    {
        let name = match key_of(&entries[i].key) {
            Some(k) => k,
            None => {
                return Err(SchemaError);
            },
        };
        let value = match decode(&entries[i].value) {
            Ok(v) => v,
            Err(e) => {
                return Err(e);
            },
        };
        out.push(Field { name, value });
        i += 1;
    }
    Ok(out)
}

/// Reads a host runtime term as a document.
pub fn decode(t: &Term) -> (r: Result<Document, SchemaError>)
    ensures
        r is Ok <==> decode_model(t@) is Some,
        r is Ok ==> Some(r->Ok_0@) == decode_model(t@),
    decreases t,
{
    match t {
        Term::Nil => Ok(Document::Null),
        Term::Boolean(b) => Ok(Document::Bool(*b)),
        Term::Atom(a) => Ok(Document::Str(a.clone())),
        Term::Integer(n) => Ok(Document::Int(*n)),
        Term::Float(s) => Ok(Document::Float(s.clone())),
        Term::Binary(s) => Ok(Document::Str(s.clone())),
        Term::List(items) => {
            let ghost m = t@->List_0;
            assert(m.len() == items@.len());
            assert(forall|i: int| 0 <= i < m.len() ==> #[trigger] m[i] == items@[i]@);
            match decode_items(items) {
                Ok(out) => {
                    let r = Document::Sequence(out);
                    proof {
                        assert(forall|i: int| 0 <= i < m.len() ==> decode_model(#[trigger] m[i]) is Some);
                        assert(r@->Sequence_0 =~= decode_model(t@)->Some_0->Sequence_0);
                    }
                    Ok(r)
                },
                Err(e) => {
                    proof {
                        let k = choose|k: int| 0 <= k < items@.len() && decode_model(#[trigger] items@[k]@) is None;
                        assert(decode_model(m[k]) is None);
                    }
                    Err(e)
                },
            }
        },
        Term::Tuple(items) => {
            let ghost m = t@->Tuple_0;
            assert(m.len() == items@.len());
            assert(forall|i: int| 0 <= i < m.len() ==> #[trigger] m[i] == items@[i]@);
            match decode_items(items) {
                Ok(out) => {
                    let r = Document::Sequence(out);
                    proof {
                        assert(forall|i: int| 0 <= i < m.len() ==> decode_model(#[trigger] m[i]) is Some);
                        assert(r@->Sequence_0 =~= decode_model(t@)->Some_0->Sequence_0);
                    }
                    Ok(r)
                },
                Err(e) => {
                    proof {
                        let k = choose|k: int| 0 <= k < items@.len() && decode_model(#[trigger] items@[k]@) is None;
                        assert(decode_model(m[k]) is None);
                    }
                    Err(e)
                },
            }
        },
        Term::Mapping(entries) => {
            let ghost m = t@->Mapping_0;
            assert(m.len() == entries@.len());
            assert(forall|i: int|
                0 <= i < m.len() ==> #[trigger] m[i] == (entries@[i].key@, entries@[i].value@));
            match decode_entries(entries) {
                Ok(out) => {
                    let r = Document::Record(out);
                    proof {
                        assert(forall|i: int|
                            0 <= i < m.len() ==> key_name((#[trigger] m[i]).0) is Some
                                && decode_model(m[i].1) is Some);
                        assert(r@->Record_0 =~= decode_model(t@)->Some_0->Record_0);
                    }
                    Ok(r)
                },
                Err(e) => {
                    proof {
                        let k = choose|k: int|
                            0 <= k < entries@.len() && !(key_name((#[trigger] entries@[k]).key@) is Some
                                && decode_model(entries@[k].value@) is Some);
                        assert(m[k] == (entries@[k].key@, entries@[k].value@));
                    }
                    Err(e)
                },
            }
        },
        Term::Opaque => Err(SchemaError),
    }
}

} // verus!
