//! The status document: its fields, and the decoding rules for each.

use vstd::prelude::*;

use crate::decimal::{decimal_of, parse_decimal, Decimal, DecimalModel};

verus! {

/// One decoded status snapshot of the device.
#[derive(Clone, Debug)]
pub struct RawThermostatData {
    /// Target temperature.
    pub setpoint: Decimal,
    /// Measured temperature.
    pub temperature: Decimal,
    /// Outside temperature; absent when no outside sensor reports.
    pub outside: Option<Decimal>,
    /// The device is paused (hold mode).
    pub pause: bool,
    /// The heating element is on.
    pub heating: bool,
}

pub struct StatusModel {
    pub setpoint: DecimalModel,
    pub temperature: DecimalModel,
    pub outside: Option<DecimalModel>,
    pub pause: bool,
    pub heating: bool,
}

pub open spec fn opt_decimal_view(o: Option<Decimal>) -> Option<DecimalModel> {
    match o {
        Some(d) => Some(d@),
        None => None,
    }
}

impl RawThermostatData {
    /// Every reading is a well-formed decimal.
    pub open spec fn wf(&self) -> bool {
        &&& self.setpoint.wf()
        &&& self.temperature.wf()
        &&& self.outside matches Some(d) ==> d.wf()
    }
}

impl View for RawThermostatData {
    type V = StatusModel;

    open spec fn view(&self) -> StatusModel {
        StatusModel {
            setpoint: self.setpoint@,
            temperature: self.temperature@,
            outside: opt_decimal_view(self.outside),
            pause: self.pause,
            heating: self.heating,
        }
    }
}

/// Why a status document could not be decoded.
#[derive(Clone, Debug)]
pub enum DecodeError {
    /// The body is no XML document of elements, with the reader's message.
    Xml(String),
    /// A required field is not in the document.
    MissingField(String),
    /// A numeric field does not hold a decimal.
    InvalidNumber { field: String, value: String },
    /// A flag field holds neither `1`, `0`, `true` nor `false`.
    InvalidFlag { field: String, value: String },
    /// The outside field holds neither `---` nor a decimal.
    InvalidOptionalFloat(String),
}

pub enum DecodeErrorModel {
    Xml(Seq<char>),
    MissingField(Seq<char>),
    InvalidNumber { field: Seq<char>, value: Seq<char> },
    InvalidFlag { field: Seq<char>, value: Seq<char> },
    InvalidOptionalFloat(Seq<char>),
}

impl View for DecodeError {
    type V = DecodeErrorModel;

    open spec fn view(&self) -> DecodeErrorModel {
        match self {
            DecodeError::Xml(m) => DecodeErrorModel::Xml(m@),
            DecodeError::MissingField(f) => DecodeErrorModel::MissingField(f@),
            DecodeError::InvalidNumber { field, value } => DecodeErrorModel::InvalidNumber {
                field: field@,
                value: value@,
            },
            DecodeError::InvalidFlag { field, value } => DecodeErrorModel::InvalidFlag {
                field: field@,
                value: value@,
            },
            DecodeError::InvalidOptionalFloat(v) => DecodeErrorModel::InvalidOptionalFloat(v@),
        }
    }
}

/// The human-readable cause of a decoding failure.
pub open spec fn message_of(e: DecodeErrorModel) -> Seq<char> {
    match e {
        DecodeErrorModel::Xml(m) => m,
        DecodeErrorModel::MissingField(f) => "missing field '"@ + f + "'"@,
        DecodeErrorModel::InvalidNumber { field, value } => "Unable to parse '"@ + value
            + "' as a number in '"@ + field + "'"@,
        DecodeErrorModel::InvalidFlag { field, value } => "Unable to parse '"@ + value
            + "' as a flag in '"@ + field + "'"@,
        DecodeErrorModel::InvalidOptionalFloat(v) => "Unable to parse '"@ + v
            + "' as optional float"@,
    }
}

impl DecodeError {
    /// The cause of the failure, in words; it quotes the offending text.
    pub fn message(&self) -> (r: String)
        ensures
            r@ == message_of(self@),
    {
        match self {
            DecodeError::Xml(m) => m.clone(),
            DecodeError::MissingField(f) => {
                let mut r = "missing field '".to_owned();
                r.append(f.as_str());
                r.append("'");
                r
            },
            DecodeError::InvalidNumber { field, value } => {
                let mut r = "Unable to parse '".to_owned();
                r.append(value.as_str());
                r.append("' as a number in '");
                r.append(field.as_str());
                r.append("'");
                r
            },
            DecodeError::InvalidFlag { field, value } => {
                let mut r = "Unable to parse '".to_owned();
                r.append(value.as_str());
                r.append("' as a flag in '");
                r.append(field.as_str());
                r.append("'");
                r
            },
            DecodeError::InvalidOptionalFloat(v) => {
                let mut r = "Unable to parse '".to_owned();
                r.append(v.as_str());
                r.append("' as optional float");
                r
            },
        }
    }
}

/// Element names and texts of a document, in the order given.
pub open spec fn fields_view(v: Seq<(String, String)>) -> Seq<(Seq<char>, Seq<char>)> {
    Seq::new(v.len(), |i: int| (v[i].0@, v[i].1@))
}

/// The text of the first field with the given name.
pub open spec fn field_text(fs: Seq<(Seq<char>, Seq<char>)>, name: Seq<char>) -> Option<Seq<char>>
    decreases fs.len(),
{
    if fs.len() == 0 {
        None
    } else if fs[0].0 == name {
        Some(fs[0].1)
    } else {
        field_text(fs.drop_first(), name)
    }
}

/// The text that marks the outside temperature as absent.
pub open spec fn sentinel() -> Seq<char> {
    seq!['-', '-', '-']
}

/// The rule for the outside field: the sentinel is absent, a decimal is
/// present, anything else is an error that names the text.
pub open spec fn outside_spec(t: Seq<char>) -> Result<Option<DecimalModel>, DecodeErrorModel> {
    if t == sentinel() {
        Ok(None)
    } else {
        match decimal_of(t) {
            Some(d) => Ok(Some(d)),
            None => Err(DecodeErrorModel::InvalidOptionalFloat(t)),
        }
    }
}

/// The flags are written `1` or `0` (`true` and `false` are read too).
pub open spec fn flag_of(t: Seq<char>) -> Option<bool> {
    if t == seq!['1'] || t == seq!['t', 'r', 'u', 'e'] {
        Some(true)
    } else if t == seq!['0'] || t == seq!['f', 'a', 'l', 's', 'e'] {
        Some(false)
    } else {
        None
    }
}

pub open spec fn number_spec(fs: Seq<(Seq<char>, Seq<char>)>, name: Seq<char>) -> Result<
    DecimalModel,
    DecodeErrorModel,
> {
    match field_text(fs, name) {
        None => Err(DecodeErrorModel::MissingField(name)),
        Some(t) => match decimal_of(t) {
            Some(d) => Ok(d),
            None => Err(DecodeErrorModel::InvalidNumber { field: name, value: t }),
        },
    }
}

pub open spec fn flag_spec(fs: Seq<(Seq<char>, Seq<char>)>, name: Seq<char>) -> Result<
    bool,
    DecodeErrorModel,
> {
    match field_text(fs, name) {
        None => Err(DecodeErrorModel::MissingField(name)),
        Some(t) => match flag_of(t) {
            Some(b) => Ok(b),
            None => Err(DecodeErrorModel::InvalidFlag { field: name, value: t }),
        },
    }
}

pub open spec fn outside_field_spec(fs: Seq<(Seq<char>, Seq<char>)>) -> Result<
    Option<DecimalModel>,
    DecodeErrorModel,
> {
    match field_text(fs, "outside"@) {
        None => Err(DecodeErrorModel::MissingField("outside"@)),
        Some(t) => outside_spec(t),
    }
}

/// The status that a document's fields decode to: all five fields, or the
/// first failure in the order setpoint, temperature, outside, pause, heating.
pub open spec fn decode_spec(fs: Seq<(Seq<char>, Seq<char>)>) -> Result<
    StatusModel,
    DecodeErrorModel,
> {
    match number_spec(fs, "setpoint"@) {
        Err(e) => Err(e),
        Ok(setpoint) => match number_spec(fs, "temperature"@) {
            Err(e) => Err(e),
            Ok(temperature) => match outside_field_spec(fs) {
                Err(e) => Err(e),
                Ok(outside) => match flag_spec(fs, "pause"@) {
                    Err(e) => Err(e),
                    Ok(pause) => match flag_spec(fs, "heating"@) {
                        Err(e) => Err(e),
                        Ok(heating) => Ok(StatusModel { setpoint, temperature, outside, pause, heating }),
                    },
                },
            },
        },
    }
}

/// The sentinel text decodes to an absent outside temperature: never to an
/// error, never to a number.
pub proof fn law_sentinel_is_absent()
    ensures
        outside_spec(sentinel()) == Ok::<Option<DecimalModel>, DecodeErrorModel>(None),
        decimal_of(sentinel()) is None,
{
    assert(sentinel().drop_first().drop_last() =~= seq!['-']);
    assert(sentinel().drop_first().drop_last().drop_last() =~= Seq::<char>::empty());
}

/// A decimal text decodes to a present outside temperature with exactly the
/// sign, digits and fraction length of the text.
pub proof fn law_decimal_is_present(t: Seq<char>)
    requires
        decimal_of(t) is Some,
    ensures
        outside_spec(t) == Ok::<Option<DecimalModel>, DecodeErrorModel>(Some(decimal_of(t)->0)),
{
    law_sentinel_is_absent();
}

/// A text that is neither the sentinel nor a decimal is an error that names
/// the text.
pub proof fn law_other_text_is_error(t: Seq<char>)
    requires
        t != sentinel(),
        decimal_of(t) is None,
    ensures
        outside_spec(t) == Err::<Option<DecimalModel>, DecodeErrorModel>(
            DecodeErrorModel::InvalidOptionalFloat(t),
        ),
{
}

/// In a decoded status, a `pause` or `heating` written `1` is set and one
/// written `0` is clear.
pub proof fn law_flags_one_and_zero(fs: Seq<(Seq<char>, Seq<char>)>)
    requires
        decode_spec(fs) is Ok,
    ensures
        field_text(fs, "pause"@) == Some(seq!['1']) ==> decode_spec(fs)->Ok_0.pause,
        field_text(fs, "pause"@) == Some(seq!['0']) ==> !decode_spec(fs)->Ok_0.pause,
        field_text(fs, "heating"@) == Some(seq!['1']) ==> decode_spec(fs)->Ok_0.heating,
        field_text(fs, "heating"@) == Some(seq!['0']) ==> !decode_spec(fs)->Ok_0.heating,
{
    assert(seq!['0'][0] != seq!['1'][0]);
    assert(seq!['0'].len() != seq!['t', 'r', 'u', 'e'].len());
}

/// The outside field has no bearing on the others: two documents whose
/// setpoint, temperature, pause and heating texts agree decode to the same
/// values of those four, whatever their outside texts.
pub proof fn law_outside_leaves_others(
    fs1: Seq<(Seq<char>, Seq<char>)>,
    fs2: Seq<(Seq<char>, Seq<char>)>,
)
    requires
        field_text(fs1, "setpoint"@) == field_text(fs2, "setpoint"@),
        field_text(fs1, "temperature"@) == field_text(fs2, "temperature"@),
        field_text(fs1, "pause"@) == field_text(fs2, "pause"@),
        field_text(fs1, "heating"@) == field_text(fs2, "heating"@),
        decode_spec(fs1) is Ok,
        decode_spec(fs2) is Ok,
    ensures
        decode_spec(fs1)->Ok_0.setpoint == decode_spec(fs2)->Ok_0.setpoint,
        decode_spec(fs1)->Ok_0.temperature == decode_spec(fs2)->Ok_0.temperature,
        decode_spec(fs1)->Ok_0.pause == decode_spec(fs2)->Ok_0.pause,
        decode_spec(fs1)->Ok_0.heating == decode_spec(fs2)->Ok_0.heating,
{
}

/// Whether two texts are equal, character by character.
fn same_text(a: &str, b: &str) -> (r: bool)
    ensures
        r == (a@ == b@),
{
    let n = a.unicode_len();
    if n != b.unicode_len() {
        return false;
    }
    let mut i: usize = 0;
    while i < n
        invariant
            i <= n,
            n == a@.len(),
            n == b@.len(),
            a@.take(i as int) == b@.take(i as int),
        decreases n - i,
    {
        if a.get_char(i) != b.get_char(i) {
            assert(a@.take(i + 1)[i as int] != b@.take(i + 1)[i as int]);
            return false;
        }
        assert(a@.take(i + 1) =~= a@.take(i as int).push(a@[i as int]));
        assert(b@.take(i + 1) =~= b@.take(i as int).push(b@[i as int]));
        i = i + 1;
    }
    assert(a@.take(n as int) =~= a@);
    assert(b@.take(n as int) =~= b@);
    true
}

/// Index of the first field with the given name.
fn find_field(fields: &Vec<(String, String)>, name: &str) -> (r: Option<usize>)
    ensures
        match field_text(fields_view(fields@), name@) {
            None => r is None,
            Some(t) => r matches Some(i) && i < fields@.len() && fields@[i as int].1@ == t,
        },
{
    let ghost fs = fields_view(fields@);
    let mut i: usize = 0;
    assert(fs.subrange(0, fs.len() as int) =~= fs);
    while i < fields.len()
        invariant
            i <= fields@.len(),
            fs == fields_view(fields@),
            field_text(fs, name@) == field_text(fs.subrange(i as int, fs.len() as int), name@),
        decreases fields@.len() - i,
    {
        let ghost rest = fs.subrange(i as int, fs.len() as int);
        assert(rest.drop_first() =~= fs.subrange(i + 1, fs.len() as int));
        assert(rest[0] == fs[i as int]);
        if same_text(fields[i].0.as_str(), name) {
            return Some(i);
        }
        i = i + 1;
    }
    None
}

/// Decodes the outside temperature: `---` is absent, a decimal is present,
/// and anything else is an error that names the text.
pub fn opt_f64(value: &str) -> (r: Result<Option<Decimal>, DecodeError>)
    ensures
        match outside_spec(value@) {
            Ok(None) => r matches Ok(None),
            Ok(Some(m)) => r matches Ok(Some(d)) && d@ == m,
            Err(e) => r matches Err(x) && x@ == e,
        },
        r matches Ok(Some(d)) ==> d.wf(),
{
    proof {
        reveal_strlit("---");
    }
    if same_text(value, "---") {
        assert(value@ =~= sentinel());
        return Ok(None);
    }
    assert(value@ != sentinel()) by {
        if value@ == sentinel() {
            assert("---"@ =~= sentinel());
        }
    }
    match parse_decimal(value) {
        Some(d) => Ok(Some(d)),
        None => Err(DecodeError::InvalidOptionalFloat(value.to_owned())),
    }
}

fn number_field(fields: &Vec<(String, String)>, name: &str) -> (r: Result<Decimal, DecodeError>)
    ensures
        match number_spec(fields_view(fields@), name@) {
            Ok(m) => r matches Ok(d) && d@ == m,
            Err(e) => r matches Err(x) && x@ == e,
        },
        r matches Ok(d) ==> d.wf(),
{
    match find_field(fields, name) {
        None => Err(DecodeError::MissingField(name.to_owned())),
        Some(i) => match parse_decimal(fields[i].1.as_str()) {
            Some(d) => Ok(d),
            None => Err(
                DecodeError::InvalidNumber { field: name.to_owned(), value: fields[i].1.clone() },
            ),
        },
    }
}

/// Decodes a flag: `1` or `true` is set, `0` or `false` is clear.
pub fn decode_flag(value: &str) -> (r: Option<bool>)
    ensures
        r == flag_of(value@),
{
    proof {
        reveal_strlit("1");
        reveal_strlit("true");
        reveal_strlit("0");
        reveal_strlit("false");
        assert("1"@ =~= seq!['1']);
        assert("true"@ =~= seq!['t', 'r', 'u', 'e']);
        assert("0"@ =~= seq!['0']);
        assert("false"@ =~= seq!['f', 'a', 'l', 's', 'e']);
    }
    if same_text(value, "1") || same_text(value, "true") {
        Some(true)
    } else if same_text(value, "0") || same_text(value, "false") {
        Some(false)
    } else {
        None
    }
}

fn flag_field(fields: &Vec<(String, String)>, name: &str) -> (r: Result<bool, DecodeError>)
    ensures
        match flag_spec(fields_view(fields@), name@) {
            Ok(b) => r == Ok::<bool, DecodeError>(b),
            Err(e) => r matches Err(x) && x@ == e,
        },
{
    match find_field(fields, name) {
        None => Err(DecodeError::MissingField(name.to_owned())),
        Some(i) => match decode_flag(fields[i].1.as_str()) {
            Some(b) => Ok(b),
            None => Err(
                DecodeError::InvalidFlag { field: name.to_owned(), value: fields[i].1.clone() },
            ),
        },
    }
}

/// Decodes a status from a list of element names and their texts; where a
/// name repeats in the list, its first text counts.
pub fn decode_fields(fields: &Vec<(String, String)>) -> (r: Result<RawThermostatData, DecodeError>)
    ensures
        match decode_spec(fields_view(fields@)) {
            Ok(m) => r matches Ok(st) && st@ == m,
            Err(e) => r matches Err(x) && x@ == e,
        },
        r matches Ok(st) ==> st.wf(),
{
    let setpoint = number_field(fields, "setpoint")?;
    let temperature = number_field(fields, "temperature")?;
    let outside = match find_field(fields, "outside") {
        None => {
            return Err(DecodeError::MissingField("outside".to_owned()));
        },
        Some(i) => opt_f64(fields[i].1.as_str())?,
    };
    let pause = flag_field(fields, "pause")?;
    let heating = flag_field(fields, "heating")?;
    let st = RawThermostatData { setpoint, temperature, outside, pause, heating };
    Ok(st)
}

/// What the XML reader makes of a body read as a map from the names of the
/// root element's children to their texts: the entries in order of name,
/// each name once (for a repeated element the map keeps its last text), or
/// the reader's message.
pub uninterp spec fn xml_fields(body: Seq<u8>) -> Result<Seq<(Seq<char>, Seq<char>)>, Seq<char>>;

/// Relies on serde_xml_rs::from_reader, read into a `BTreeMap<String, String>`
/// (names of the root's children to their texts), and on its error's
/// `to_string` for the message.
#[verifier::external_body]
fn read_fields(body: &[u8]) -> (r: Result<Vec<(String, String)>, String>)
    ensures
        match r {
            Ok(v) => xml_fields(body@) == Ok::<_, Seq<char>>(fields_view(v@)),
            Err(m) => xml_fields(body@) == Err::<Seq<(Seq<char>, Seq<char>)>, _>(m@),
        },
{
    serde_xml_rs::from_reader::<_, std::collections::BTreeMap<String, String>>(body)
        .map(|m| m.into_iter().collect())
        .map_err(|e| e.to_string())
}

/// Decodes a status response body: an XML document whose root element
/// holds `setpoint`, `temperature`, `outside`, `pause` and `heating`.
pub fn decode_status(body: &[u8]) -> (r: Result<RawThermostatData, DecodeError>)
    ensures
        match xml_fields(body@) {
            Err(m) => r matches Err(x) && x@ == DecodeErrorModel::Xml(m),
            Ok(fs) => match decode_spec(fs) {
                Ok(m) => r matches Ok(st) && st@ == m,
                Err(e) => r matches Err(x) && x@ == e,
            },
        },
        r matches Ok(st) ==> st.wf(),
{
    match read_fields(body) {
        Err(m) => Err(DecodeError::Xml(m)),
        Ok(fields) => decode_fields(&fields),
    }
}

} // verus!
