use vstd::prelude::*;
use crate::payload::Payload;

verus! {

/// The value of one top-level field of a body on the wire.
pub enum Field {
    Null,
    Text(String),
    Number(usize),
    /// Any other value (an array, an object, a boolean, a number that is not
    /// a message id), as its JSON text.
    Raw(String),
}

/// The mathematical value of a `Field`.
pub enum FieldView {
    Null,
    Text(Seq<char>),
    Number(usize),
    Raw(Seq<char>),
}

impl View for Field {
    type V = FieldView;

    open spec fn view(&self) -> FieldView {
        match self {
            Field::Null => FieldView::Null,
            Field::Text(s) => FieldView::Text(s@),
            Field::Number(n) => FieldView::Number(*n),
            Field::Raw(s) => FieldView::Raw(s@),
        }
    }
}

/// Why a body could not be read as a payload.
#[derive(PartialEq, Eq, Structural, Debug, Clone, Copy)]
pub enum DecodeError {
    /// No `type` field.
    MissingType,
    /// A `type` field that is not a string.
    BadType,
    /// A `msg_id` or `in_reply_to` field that is neither a message id nor null.
    BadId,
}

/// A payload whose extra fields are kept as they came, in order.
pub struct PayloadView {
    pub type_payload: Seq<char>,
    pub msg_id: Option<usize>,
    pub in_reply_to: Option<usize>,
    pub extra: Seq<(Seq<char>, FieldView)>,
}

/// The mathematical value of a field list.
pub open spec fn fields_view(fs: Seq<(String, Field)>) -> Seq<(Seq<char>, FieldView)> {
    fs.map_values(|f: (String, Field)| (f.0@, f.1@))
}

/// The mathematical value of a payload whose extra fields are a field list.
pub open spec fn payload_view(p: Payload<Vec<(String, Field)>>) -> PayloadView {
    PayloadView {
        type_payload: p.type_payload@,
        msg_id: p.msg_id,
        in_reply_to: p.in_reply_to,
        extra: fields_view(p.info@),
    }
}

/// The names of the fields that the protocol itself reads.
pub open spec fn is_protocol_key(k: Seq<char>) -> bool {
    k == "type"@ || k == "msg_id"@ || k == "in_reply_to"@
}

/// The field that carries an id under `key`, or none where the id is absent.
pub open spec fn id_field(key: Seq<char>, id: Option<usize>) -> Seq<(Seq<char>, FieldView)> {
    match id {
        Some(n) => seq![(key, FieldView::Number(n))],
        None => Seq::empty(),
    }
}

/// The flat field list of a payload: its type, the ids that it has, and then
/// its extra fields.
pub open spec fn flat_fields(p: PayloadView) -> Seq<(Seq<char>, FieldView)> {
    seq![("type"@, FieldView::Text(p.type_payload))] + id_field("msg_id"@, p.msg_id)
        + id_field("in_reply_to"@, p.in_reply_to) + p.extra
}

/// What the fields read so far say: the type, if any, the two ids, and the
/// extra fields in order.
pub struct Scan {
    pub type_payload: Option<Seq<char>>,
    pub msg_id: Option<usize>,
    pub in_reply_to: Option<usize>,
    pub extra: Seq<(Seq<char>, FieldView)>,
}

/// The id that a `msg_id` or `in_reply_to` field holds; null is no id.
pub open spec fn read_id(v: FieldView) -> Result<Option<usize>, DecodeError> {
    match v {
        FieldView::Number(n) => Ok(Some(n)),
        FieldView::Null => Ok(None),
        _ => Err(DecodeError::BadId),
    }
}

/// Reads one more field into `s`; a protocol field given twice takes its
/// last value.
pub open spec fn scan_field(s: Scan, f: (Seq<char>, FieldView)) -> Result<Scan, DecodeError> {
    if f.0 == "type"@ {
        match f.1 {
            FieldView::Text(t) => Ok(Scan { type_payload: Some(t), ..s }),
            _ => Err(DecodeError::BadType),
        }
    } else if f.0 == "msg_id"@ {
        match read_id(f.1) {
            Ok(id) => Ok(Scan { msg_id: id, ..s }),
            Err(e) => Err(e),
        }
    } else if f.0 == "in_reply_to"@ {
        match read_id(f.1) {
            Ok(id) => Ok(Scan { in_reply_to: id, ..s }),
            Err(e) => Err(e),
        }
    } else {
        Ok(Scan { extra: s.extra.push(f), ..s })
    }
}

/// Reads a field list left to right.
pub open spec fn scan(fs: Seq<(Seq<char>, FieldView)>) -> Result<Scan, DecodeError>
    decreases fs.len(),
{
    if fs.len() == 0 {
        Ok(Scan { type_payload: None, msg_id: None, in_reply_to: None, extra: Seq::empty() })
    } else {
        match scan(fs.drop_last()) {
            Ok(s) => scan_field(s, fs.last()),
            Err(e) => Err(e),
        }
    }
}

/// The payload that a flat field list holds: the first field of the wrong
/// kind, read left to right, is the error.
pub open spec fn read_fields(fs: Seq<(Seq<char>, FieldView)>) -> Result<PayloadView, DecodeError> {
    match scan(fs) {
        Ok(s) => match s.type_payload {
            Some(t) => Ok(
                PayloadView { type_payload: t, msg_id: s.msg_id, in_reply_to: s.in_reply_to, extra: s.extra },
            ),
            None => Err(DecodeError::MissingType),
        },
        Err(e) => Err(e),
    }
}

proof fn lemma_key_literals()
    ensures
        "type"@ != "msg_id"@,
        "type"@ != "in_reply_to"@,
        "msg_id"@ != "in_reply_to"@,
{
    reveal_strlit("type");
    reveal_strlit("msg_id");
    reveal_strlit("in_reply_to");
    assert("type"@.len() == 4 && "msg_id"@.len() == 6 && "in_reply_to"@.len() == 11);
}

/// Reading the protocol fields of an encoded payload gives back its type and
/// ids, with no extra field yet.
proof fn lemma_scan_header(p: PayloadView)
    ensures
        scan(flat_fields(PayloadView { extra: Seq::empty(), ..p })) == Ok::<_, DecodeError>(
            Scan { type_payload: Some(p.type_payload), msg_id: p.msg_id, in_reply_to: p.in_reply_to, extra: Seq::empty() },
        ),
{
    lemma_key_literals();
    let t = seq![("type"@, FieldView::Text(p.type_payload))];
    let m = id_field("msg_id"@, p.msg_id);
    let h = t + m;
    let fs = flat_fields(PayloadView { extra: Seq::empty(), ..p });
    assert(t.drop_last() =~= Seq::empty());
    assert(scan(t.drop_last()) == Ok::<_, DecodeError>(
        Scan { type_payload: None, msg_id: None, in_reply_to: None, extra: Seq::empty() },
    ));
    assert(scan(t) == Ok::<_, DecodeError>(Scan { type_payload: Some(p.type_payload), msg_id: None, in_reply_to: None, extra: Seq::empty() }));
    if p.msg_id is Some {
        assert(h.drop_last() =~= t);
    } else {
        assert(h =~= t);
    }
    assert(scan(h) == Ok::<_, DecodeError>(Scan { type_payload: Some(p.type_payload), msg_id: p.msg_id, in_reply_to: None, extra: Seq::empty() }));
    if p.in_reply_to is Some {
        assert(fs.drop_last() =~= h);
    } else {
        assert(fs =~= h);
    }
}

/// Fields that are not protocol fields are kept, in order, after whatever
/// was read before them.
proof fn lemma_scan_extra(h: Seq<(Seq<char>, FieldView)>, extra: Seq<(Seq<char>, FieldView)>, s: Scan)
    requires
        scan(h) == Ok::<_, DecodeError>(s),
        s.extra.len() == 0,
        forall|i: int| 0 <= i < extra.len() ==> !is_protocol_key(#[trigger] extra[i].0),
    ensures
        scan(h + extra) == Ok::<_, DecodeError>(Scan { extra, ..s }),
    decreases extra.len(),
{
    if extra.len() == 0 {
        assert(h + extra =~= h);
        assert(extra =~= s.extra);
    } else {
        let fs = h + extra;
        assert(fs.drop_last() =~= h + extra.drop_last());
        assert(fs.last() == extra[extra.len() - 1]);
        lemma_scan_extra(h, extra.drop_last(), s);
        assert(extra.drop_last().push(extra.last()) =~= extra);
    }
}

/// Encoding a payload into its flat field list and decoding that list gives
/// the payload back, extra fields included, as long as no extra field is
/// named like a protocol field.
pub proof fn lemma_round_trip(p: PayloadView)
    requires
        forall|i: int| 0 <= i < p.extra.len() ==> !is_protocol_key(#[trigger] p.extra[i].0),
    ensures
        read_fields(flat_fields(p)) == Ok::<_, DecodeError>(p),
{
    let head = PayloadView { extra: Seq::empty(), ..p };
    lemma_scan_header(p);
    let h = flat_fields(head);
    assert(flat_fields(p) =~= h + p.extra);
    lemma_scan_extra(
        h,
        p.extra,
        Scan { type_payload: Some(p.type_payload), msg_id: p.msg_id, in_reply_to: p.in_reply_to, extra: Seq::empty() },
    );
}

/// The mathematical value of an optional string.
pub open spec fn text_view(t: Option<String>) -> Option<Seq<char>> {
    match t {
        Some(s) => Some(s@),
        None => None,
    }
}

/// Once a prefix of the fields fails to read, the whole list fails the same way.
proof fn lemma_scan_err(fs: Seq<(Seq<char>, FieldView)>, k: int, e: DecodeError)
    requires
        0 <= k <= fs.len(),
        scan(fs.subrange(0, k)) == Err::<Scan, _>(e),
    ensures
        scan(fs) == Err::<Scan, _>(e),
    decreases fs.len() - k,
{
    if fs.len() == k {
        assert(fs.subrange(0, k) =~= fs);
    } else {
        assert(fs.drop_last().subrange(0, k) =~= fs.subrange(0, k));
        lemma_scan_err(fs.drop_last(), k, e);
    }
}

/// The flat field list of `p`: `type`, then `msg_id` and `in_reply_to` where
/// they are present, then the extra fields.
pub fn encode_body(p: Payload<Vec<(String, Field)>>) -> (r: Vec<(String, Field)>)
    ensures
        fields_view(r@) == flat_fields(payload_view(p)),
{
    let ghost pv = payload_view(p);
    let mut r: Vec<(String, Field)> = Vec::new();
    r.push(("type".to_string(), Field::Text(p.type_payload)));
    match p.msg_id {
        Some(n) => r.push(("msg_id".to_string(), Field::Number(n))),
        None => {},
    }
    match p.in_reply_to {
        Some(n) => r.push(("in_reply_to".to_string(), Field::Number(n))),
        None => {},
    }
    let mut extra = p.info;
    r.append(&mut extra);
    assert(fields_view(r@) =~= flat_fields(pv));
    r
}

/// Reads a flat field list as a payload: `type` must be a string, `msg_id`
/// and `in_reply_to` a message id or null where present, and every other
/// field is kept, in order, as an extra field.
pub fn decode_body(fields: Vec<(String, Field)>) -> (r: Result<Payload<Vec<(String, Field)>>, DecodeError>)
    ensures
        r is Ok <==> read_fields(fields_view(fields@)) is Ok,
        r is Ok ==> payload_view(r->Ok_0) == read_fields(fields_view(fields@))->Ok_0,
        r is Err ==> r->Err_0 == read_fields(fields_view(fields@))->Err_0,
{
    let ghost fv = fields_view(fields@);
    let n = fields.len();
    let mut rest = fields;
    let mut type_payload: Option<String> = None;
    let mut msg_id: Option<usize> = None;
    let mut in_reply_to: Option<usize> = None;
    let mut extra: Vec<(String, Field)> = Vec::new();
    let mut i: usize = 0;
    assert(fv.subrange(0, 0) =~= Seq::empty());
    assert(fields_view(extra@) =~= Seq::empty());
    while i < n
        invariant
            i <= n,
            fv == fields_view(fields@),
            n == fv.len(),
            rest@.len() == n - i,
            fields_view(rest@) == fv.subrange(i as int, n as int),
            scan(fv.subrange(0, i as int)) == Ok::<_, DecodeError>(
                Scan { type_payload: text_view(type_payload), msg_id, in_reply_to, extra: fields_view(extra@) },
            ),
        decreases n - i,
    {
        let ghost old_rest = fields_view(rest@);
        assert(old_rest[0] == fv[i as int]);
        let ghost before = rest@;
        let (key, value) = rest.remove(0);
        assert(rest@ =~= before.subrange(1, before.len() as int));
        assert(fields_view(rest@) =~= old_rest.subrange(1, old_rest.len() as int));
        assert(fields_view(rest@) =~= fv.subrange(i + 1, n as int));
        let ghost f = fv[i as int];
        assert(f == (key@, value@));
        assert(fv.subrange(0, i + 1).drop_last() =~= fv.subrange(0, i as int));
        assert(fv.subrange(0, i + 1).last() == f);
        if key == "type".to_string() {
            match value {
                Field::Text(t) => type_payload = Some(t),
                _ => {
                    proof { lemma_scan_err(fv, i + 1, DecodeError::BadType); }
                    return Err(DecodeError::BadType);
                },
            }
        } else if key == "msg_id".to_string() {
            match value {
                Field::Number(id) => msg_id = Some(id),
                Field::Null => msg_id = None,
                _ => {
                    proof { lemma_scan_err(fv, i + 1, DecodeError::BadId); }
                    return Err(DecodeError::BadId);
                },
            }
        } else if key == "in_reply_to".to_string() {
            match value {
                Field::Number(id) => in_reply_to = Some(id),
                Field::Null => in_reply_to = None,
                _ => {
                    proof { lemma_scan_err(fv, i + 1, DecodeError::BadId); }
                    return Err(DecodeError::BadId);
                },
            }
        } else {
            extra.push((key, value));
            assert(fields_view(extra@) =~= scan(fv.subrange(0, i as int))->Ok_0.extra.push(f));
        }
        i = i + 1;
    }
    assert(fv.subrange(0, n as int) =~= fv);
    match type_payload {
        Some(t) => Ok(Payload { type_payload: t, msg_id, in_reply_to, info: extra }),
        None => Err(DecodeError::MissingType),
    }
}

} // verus!
