//! The CSV codec, consumed from the `csv` crate behind two trusted
//! wrappers.  What the codec produces is named, not restated: the
//! contracts of the capability speak of `csv_encode_of` and
//! `csv_parse_of` exactly.

use vstd::prelude::*;

verus! {

/// What `csv::Writer` (default configuration) produces from a header
/// record and data records, or the error it reports.
pub uninterp spec fn csv_encode_of(headers: Seq<Seq<char>>, rows: Seq<Seq<Seq<char>>>) -> Result<
    Seq<u8>,
    Seq<char>,
>;

/// What `csv::Reader` (default configuration) parses a document into:
/// the first record as headers, the remaining records as rows, or the
/// error it reports.
pub uninterp spec fn csv_parse_of(s: Seq<char>) -> Result<
    (Seq<Seq<char>>, Seq<Seq<Seq<char>>>),
    Seq<char>,
>;

/// Relies on `csv::Writer` with its default configuration, writing into
/// an in-memory buffer: the headers become the first record, each row
/// one further record.  Its source errors exactly when a record's field
/// count differs from the first record's; writing to a `Vec` itself
/// never fails.
#[verifier::external_body]
pub(crate) fn csv_encode(headers: &Vec<String>, rows: &Vec<Vec<String>>) -> (r: Result<
    Vec<u8>,
    String,
>)
    ensures
        match r {
            Ok(bytes) => csv_encode_of(headers.deep_view(), rows.deep_view()) == Ok::<
                Seq<u8>,
                Seq<char>,
            >(bytes@),
            Err(m) => csv_encode_of(headers.deep_view(), rows.deep_view()) == Err::<
                Seq<u8>,
                Seq<char>,
            >(m@),
        },
        r is Ok <==> (forall|i: int|
            0 <= i < rows.deep_view().len() ==> rows.deep_view()[i].len()
                == headers.deep_view().len()),
{
    let mut w = csv::Writer::from_writer(vec![]);
    if let Err(e) = w.write_record(headers) {
        return Err(e.to_string());
    }
    for row in rows {
        if let Err(e) = w.write_record(row) {
            return Err(e.to_string());
        }
    }
    w.into_inner().map_err(|e| e.to_string())
}

/// Relies on `csv::Reader` with its default configuration over an
/// in-memory document: the first record is returned as the headers, the
/// remaining records as rows; its source errors on a record whose field
/// count differs from the headers'.
#[verifier::external_body]
pub(crate) fn csv_decode(s: &str) -> (r: Result<(Vec<String>, Vec<Vec<String>>), String>)
    ensures
        match r {
            Ok(hr) => csv_parse_of(s@) == Ok::<(Seq<Seq<char>>, Seq<Seq<Seq<char>>>), Seq<char>>(
                (hr.0.deep_view(), hr.1.deep_view()),
            ),
            Err(m) => csv_parse_of(s@) == Err::<(Seq<Seq<char>>, Seq<Seq<Seq<char>>>), Seq<char>>(
                m@,
            ),
        },
{
    let mut rdr = csv::Reader::from_reader(s.as_bytes());
    let headers: Vec<String> = match rdr.headers() {
        Ok(h) => h.iter().map(|f| f.to_string()).collect(),
        Err(e) => return Err(e.to_string()),
    };
    let mut rows: Vec<Vec<String>> = Vec::new();
    for record in rdr.records() {
        match record {
            Ok(rec) => rows.push(rec.iter().map(|f| f.to_string()).collect()),
            Err(e) => return Err(e.to_string()),
        }
    }
    Ok((headers, rows))
}

} // verus!
