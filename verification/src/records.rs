//! The zone's A records, as read from the provider's listing.
//!
//! The provider's JSON response is first flattened into one
//! [`RecordFields`] per array element; [`collect_a_records`] then keeps
//! exactly the elements whose `type` is `"A"`, in their original order,
//! and requires each kept element to carry `id`, `name` and `content` —
//! a kept element missing one of them fails the whole listing with a
//! `ParseError`. Elements of any other type are silently dropped,
//! whatever fields they carry.
//!
//! The model lives at the view level: [`FieldsView`] and [`RecordView`]
//! are what the contracts and laws speak of.

use vstd::prelude::*;
use vstd::string::*;

use crate::errors::SyncError;

verus! {

/// One DNS A record: provider-assigned id, fully qualified name, and the
/// dotted-decimal IPv4 address it currently maps to.
pub struct ARecord {
    pub id: String,
    pub name: String,
    pub content: String,
}

/// The mathematical view of one A record.
pub struct RecordView {
    pub id: Seq<char>,
    pub name: Seq<char>,
    pub content: Seq<char>,
}

impl View for ARecord {
    type V = RecordView;

    open spec fn view(&self) -> RecordView {
        RecordView { id: self.id@, name: self.name@, content: self.content@ }
    }
}

/// The fields read from one element of the provider's record array; a
/// field that is absent or not a string is `None`.
pub struct RecordFields {
    pub rtype: Option<String>,
    pub id: Option<String>,
    pub name: Option<String>,
    pub content: Option<String>,
}

/// The mathematical view of one element's fields.
pub struct FieldsView {
    pub rtype: Option<Seq<char>>,
    pub id: Option<Seq<char>>,
    pub name: Option<Seq<char>>,
    pub content: Option<Seq<char>>,
}

impl View for RecordFields {
    type V = FieldsView;

    open spec fn view(&self) -> FieldsView {
        FieldsView {
            rtype: match self.rtype {
                Option::Some(s) => Option::Some(s@),
                Option::None => Option::None,
            },
            id: match self.id {
                Option::Some(s) => Option::Some(s@),
                Option::None => Option::None,
            },
            name: match self.name {
                Option::Some(s) => Option::Some(s@),
                Option::None => Option::None,
            },
            content: match self.content {
                Option::Some(s) => Option::Some(s@),
                Option::None => Option::None,
            },
        }
    }
}

/// The views of a sequence of read elements.
pub open spec fn fields_views(elems: Seq<RecordFields>) -> Seq<FieldsView> {
    elems.map_values(|f: RecordFields| f@)
}

/// The views of a sequence of records.
pub open spec fn record_views(records: Seq<ARecord>) -> Seq<RecordView> {
    records.map_values(|r: ARecord| r@)
}

/// The element's `type` field is the literal string `A`.
pub open spec fn is_a_type(f: FieldsView) -> bool {
    f.rtype is Some && f.rtype->0 == "A"@
}

/// The element carries all three fields of an A record.
pub open spec fn fields_complete(f: FieldsView) -> bool {
    f.id is Some && f.name is Some && f.content is Some
}

/// The record built from a complete element.
pub open spec fn record_of(f: FieldsView) -> RecordView {
    RecordView { id: f.id->0, name: f.name->0, content: f.content->0 }
}

/// The listing read left to right: A-type elements are kept in order,
/// others dropped; the first incomplete A-type element fails the listing.
pub open spec fn spec_a_records(elems: Seq<FieldsView>) -> Result<Seq<RecordView>, ()>
    decreases elems.len(),
{
    if elems.len() == 0 {
        Ok(Seq::empty())
    } else {
        match spec_a_records(elems.drop_last()) {
            Err(x) => Err(x),
            Ok(t) => {
                let e = elems.last();
                if is_a_type(e) {
                    if fields_complete(e) {
                        Ok(t.push(record_of(e)))
                    } else {
                        Err(())
                    }
                } else {
                    Ok(t)
                }
            },
        }
    }
}

/// What a successful listing holds: the A-type elements, in their
/// original relative order, each mapped to its record.
pub open spec fn a_records_view(elems: Seq<FieldsView>) -> Seq<RecordView> {
    elems.filter(|f: FieldsView| is_a_type(f)).map_values(|f: FieldsView| record_of(f))
}

/// A successful listing returns exactly the A-type elements, mapped to
/// records in their original relative order; every other element is
/// excluded without an error.
pub proof fn lemma_a_records_only_type_a(elems: Seq<FieldsView>)
    requires
        spec_a_records(elems) is Ok,
    ensures
        spec_a_records(elems)->Ok_0 == a_records_view(elems),
    decreases elems.len(),
{
    reveal(Seq::filter);
    let pred = |f: FieldsView| is_a_type(f);
    if elems.len() == 0 {
        assert(elems.filter(pred) =~= elems);
        assert(spec_a_records(elems)->Ok_0 =~= a_records_view(elems));
    } else {
        let prefix = elems.drop_last();
        let e = elems.last();
        assert(spec_a_records(prefix) is Ok);
        lemma_a_records_only_type_a(prefix);
        if pred(e) {
            assert(elems.filter(pred) == prefix.filter(pred).push(e));
            assert(a_records_view(elems) =~= a_records_view(prefix).push(record_of(e)));
        } else {
            assert(elems.filter(pred) == prefix.filter(pred));
        }
    }
}

/// Keeps the A records of the listed elements, in order.
///
/// Returns the records of [`spec_a_records`] on success; fails with
/// `ParseError` exactly when some A-type element misses a field.
pub fn collect_a_records(elems: &Vec<RecordFields>) -> (r: Result<Vec<ARecord>, SyncError>)
    ensures
        r is Ok <==> spec_a_records(fields_views(elems@)) is Ok,
        r is Ok ==> record_views(r->Ok_0@) == spec_a_records(fields_views(elems@))->Ok_0,
        r is Ok ==> record_views(r->Ok_0@) == a_records_view(fields_views(elems@)),
        r is Err ==> r->Err_0 == SyncError::ParseError,
{
    let n: usize = elems.len();
    let mut out: Vec<ARecord> = Vec::new();
    let mut i: usize = 0;
    while i < n
        invariant
            n == elems@.len(),
            i <= n,
            spec_a_records(fields_views(elems@.subrange(0, i as int))) is Ok,
            record_views(out@) == spec_a_records(fields_views(elems@.subrange(0, i as int)))->Ok_0,
        decreases n - i,
    {
        let f = &elems[i];
        proof {
            let full = fields_views(elems@.subrange(0, i + 1));
            assert(full.drop_last() =~= fields_views(elems@.subrange(0, i as int)));
            assert(full.last() == elems@[i as int]@);
        }
        let a_type = match &f.rtype {
            Some(t) => is_type_a(t),
            None => false,
        };
        if a_type {
            match (&f.id, &f.name, &f.content) {
                (Some(id), Some(name), Some(content)) => {
                    let rec = ARecord { id: id.clone(), name: name.clone(), content: content.clone() };
                    proof {
                        assert(rec@ == record_of(elems@[i as int]@));
                    }
                    out.push(rec);
                    proof {
                        assert(record_views(out@) =~= spec_a_records(
                            fields_views(elems@.subrange(0, i + 1)),
                        )->Ok_0);
                    }
                },
                _ => {
                    proof {
                        assert(spec_a_records(fields_views(elems@.subrange(0, i + 1))) is Err);
                        assert(fields_views(elems@).subrange(0, i + 1) =~= fields_views(
                            elems@.subrange(0, i + 1),
                        ));
                        lemma_a_records_err_persists(fields_views(elems@), i + 1);
                    }
                    return Err(SyncError::ParseError);
                },
            }
        } else {
            proof {
                assert(record_views(out@) =~= spec_a_records(
                    fields_views(elems@.subrange(0, i + 1)),
                )->Ok_0);
            }
        }
        i += 1;
    }
    proof {
        assert(elems@.subrange(0, n as int) =~= elems@);
        lemma_a_records_only_type_a(fields_views(elems@));
    }
    Ok(out)
}

/// Once a prefix of the listing has failed, the whole listing fails.
proof fn lemma_a_records_err_persists(elems: Seq<FieldsView>, i: int)
    requires
        0 <= i <= elems.len(),
        spec_a_records(elems.subrange(0, i)) is Err,
    ensures
        spec_a_records(elems) is Err,
    decreases elems.len() - i,
{
    if i == elems.len() {
        assert(elems.subrange(0, i) =~= elems);
    } else {
        assert(elems.subrange(0, i + 1).drop_last() =~= elems.subrange(0, i));
        lemma_a_records_err_persists(elems, i + 1);
    }
}

/// The string is the type tag of an A record.
fn is_type_a(s: &String) -> (r: bool)
    ensures
        r == (s@ == "A"@),
{
    let a = String::from_str("A");
    *s == a
}

} // verus!
