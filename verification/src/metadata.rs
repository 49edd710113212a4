//! gRPC metadata headers from `--metadata key=value`.

use tonic::metadata::AsciiMetadataKey;
use tonic::metadata::AsciiMetadataValue;
use tonic::metadata::MetadataMap;
use vstd::prelude::*;
use vstd::string::StrSliceExecFns;
use vstd::string::StringExecFns;

use crate::text::find_char;
use crate::text::quote;

verus! {

/// One gRPC metadata header attached to outgoing requests.
/// Validated at parse time so request assembly never fails on a bad key or value.
#[derive(Debug)]
pub struct MetaPair {
    key: String,
    value: String,
}

/// Why a `--metadata` value could not be parsed into a header.
#[derive(Debug)]
pub enum MetaParseError {
    /// There is no `=`; holds the whole text.
    MissingEquals(String),
    /// Nothing stands before the `=`; holds the whole text.
    EmptyKey(String),
    /// The key cannot name a header; holds the key as it was given.
    InvalidKey { key: String, detail: String },
    /// The value cannot be sent; holds the key in its normal form.
    InvalidValue { key: String, detail: String },
}

/// The kinds of [`MetaParseError`].
pub enum MetaFault {
    MissingEquals,
    EmptyKey,
    InvalidKey,
    InvalidValue,
}

/// A character that a header name may hold: an HTTP token character.
pub open spec fn is_token(c: char) -> bool {
    ||| '0' <= c <= '9'
    ||| 'a' <= c <= 'z'
    ||| 'A' <= c <= 'Z'
    ||| c == '!' || c == '#' || c == '$' || c == '%' || c == '&' || c == '\''
    ||| c == '*' || c == '+' || c == '-' || c == '.' || c == '^' || c == '_'
    ||| c == '`' || c == '|' || c == '~'
}

/// The lower case of an ASCII letter; any other character as it is.
pub open spec fn lower(c: char) -> char {
    if 'A' <= c <= 'Z' {
        (c as u32 + 32) as char
    } else {
        c
    }
}

/// A text with its ASCII letters in lower case.
pub open spec fn lower_text(s: Seq<char>) -> Seq<char> {
    s.map_values(|c: char| lower(c))
}

/// The header name for a key, in its normal form: one to 65535 token
/// characters in lower case. A name that ends in `-bin` is kept for binary
/// values and is no key here.
pub open spec fn header_name(key: Seq<char>) -> Option<Seq<char>> {
    if 0 < key.len() <= 65535 && (forall|i: int| 0 <= i < key.len() ==> is_token(#[trigger] key[i]))
        && !"-bin"@.is_suffix_of(lower_text(key)) {
        Some(lower_text(key))
    } else {
        None
    }
}

/// What a header value may hold: tabs, and no other control character.
pub open spec fn valid_value(value: Seq<char>) -> bool {
    forall|i: int|
        0 <= i < value.len() ==> (#[trigger] value[i] == '\t' || (value[i] >= ' ' && value[i]
            != '\u{7f}'))
}

/// The header name and value that a text stands for, or why it stands for none.
/// The value is everything after the first `=`.
pub open spec fn meta_parts(raw: Seq<char>) -> Result<(Seq<char>, Seq<char>), MetaFault> {
    match raw.index_of_first('=') {
        None => Err(MetaFault::MissingEquals),
        Some(cut) => if cut == 0 {
            Err(MetaFault::EmptyKey)
        } else {
            match header_name(raw.take(cut)) {
                None => Err(MetaFault::InvalidKey),
                Some(name) => if valid_value(raw.skip(cut + 1)) {
                    Ok((name, raw.skip(cut + 1)))
                } else {
                    Err(MetaFault::InvalidValue)
                },
            }
        },
    }
}

/// Calls `tonic::metadata::AsciiMetadataKey::from_bytes` and reads the key back
/// with `as_str`: the key in its normal form where `header_name` gives one, and
/// an error with a fixed message otherwise.
#[verifier::external_body]
fn normal_key(key: &str) -> (r: Result<String, String>)
    ensures
        match r {
            Ok(name) => header_name(key@) == Some(name@),
            Err(e) => header_name(key@) is None && e@ == "invalid gRPC metadata key name"@,
        },
{
    AsciiMetadataKey::from_bytes(key.as_bytes())
        .map(|name| name.as_str().to_string())
        .map_err(|e| e.to_string())
}

/// Calls `try_from` of `tonic::metadata::AsciiMetadataValue` and reads the value
/// back with `as_bytes`: the same text where it is a valid value, and an error
/// with a fixed message otherwise.
#[verifier::external_body]
fn checked_value(value: &str) -> (r: Result<String, String>)
    ensures
        match r {
            Ok(text) => valid_value(value@) && text@ == value@,
            Err(e) => !valid_value(value@) && e@ == "failed to parse metadata value"@,
        },
{
    AsciiMetadataValue::try_from(value)
        .map(|v| String::from_utf8_lossy(v.as_bytes()).into_owned())
        .map_err(|e| e.to_string())
}

impl MetaParseError {
    /// The kind of this error.
    pub open spec fn fault(self) -> MetaFault {
        match self {
            MetaParseError::MissingEquals(_) => MetaFault::MissingEquals,
            MetaParseError::EmptyKey(_) => MetaFault::EmptyKey,
            MetaParseError::InvalidKey { .. } => MetaFault::InvalidKey,
            MetaParseError::InvalidValue { .. } => MetaFault::InvalidValue,
        }
    }

    /// The text that the message of this error quotes: the whole text, or the key.
    pub open spec fn subject(self) -> Seq<char> {
        match self {
            MetaParseError::MissingEquals(raw) => raw@,
            MetaParseError::EmptyKey(raw) => raw@,
            MetaParseError::InvalidKey { key, .. } => key@,
            MetaParseError::InvalidValue { key, .. } => key@,
        }
    }

    /// Whether this error tells what is wrong with `raw`.
    pub open spec fn explains(self, raw: Seq<char>) -> bool {
        let cut = raw.index_of_first('=')->Some_0;
        match self {
            MetaParseError::MissingEquals(text) => text@ == raw,
            MetaParseError::EmptyKey(text) => text@ == raw,
            MetaParseError::InvalidKey { key, detail } => key@ == raw.take(cut) && detail@
                == "invalid gRPC metadata key name"@,
            MetaParseError::InvalidValue { key, detail } => header_name(raw.take(cut)) == Some(key@)
                && detail@ == "failed to parse metadata value"@,
        }
    }

    /// The message of this error, with `quoted` for its subject.
    pub open spec fn description(self, quoted: Seq<char>) -> Seq<char> {
        match self {
            MetaParseError::MissingEquals(_) => "metadata "@ + quoted + " must be key=value"@,
            MetaParseError::EmptyKey(_) => "metadata "@ + quoted + " has an empty key"@,
            MetaParseError::InvalidKey { detail, .. } => "metadata key "@ + quoted
                + " is not a valid header name: "@ + detail@,
            MetaParseError::InvalidValue { detail, .. } => "metadata value for "@ + quoted
                + " is not valid: "@ + detail@,
        }
    }

    /// Writes the message of this error around its quoted subject.
    pub fn describe(&self, quoted: &str) -> (r: String)
        ensures
            r@ == self.description(quoted@),
    {
        match self {
            MetaParseError::MissingEquals(_) => "metadata ".to_owned().concat(quoted).concat(
                " must be key=value",
            ),
            MetaParseError::EmptyKey(_) => "metadata ".to_owned().concat(quoted).concat(
                " has an empty key",
            ),
            MetaParseError::InvalidKey { detail, .. } => "metadata key ".to_owned().concat(
                quoted,
            ).concat(" is not a valid header name: ").concat(detail.as_str()),
            MetaParseError::InvalidValue { detail, .. } => "metadata value for ".to_owned().concat(
                quoted,
            ).concat(" is not valid: ").concat(detail.as_str()),
        }
    }

    /// The message of this error.
    pub fn to_string(&self) -> (r: String)
        ensures
            r@ == self.description(crate::text::quoted(self.subject())),
    {
        let subject: &String = match self {
            MetaParseError::MissingEquals(raw) => raw,
            MetaParseError::EmptyKey(raw) => raw,
            MetaParseError::InvalidKey { key, .. } => key,
            MetaParseError::InvalidValue { key, .. } => key,
        };
        self.describe(quote(subject.as_str()).as_str())
    }
}

impl View for MetaPair {
    type V = (Seq<char>, Seq<char>);

    /// The header name and the value.
    closed spec fn view(&self) -> (Seq<char>, Seq<char>) {
        (self.key@, self.value@)
    }
}

impl Clone for MetaPair {
    fn clone(&self) -> (r: Self)
        ensures
            r == *self,
    {
        proof {
            use_type_invariant(self);
        }
        MetaPair { key: self.key.clone(), value: self.value.clone() }
    }
}

/// A header name in its normal form with a valid value.
pub open spec fn valid_pair(pair: (Seq<char>, Seq<char>)) -> bool {
    header_name(pair.0) == Some(pair.0) && valid_value(pair.1)
}

impl MetaPair {
    #[verifier::type_invariant]
    spec fn wf(self) -> bool {
        valid_pair(self@)
    }

    /// Parses a `key=value` header.
    /// The value keeps everything after the first `=`, so values may themselves contain `=`.
    pub fn parse(raw: &str) -> (r: Result<MetaPair, MetaParseError>)
        ensures
            match r {
                Ok(pair) => meta_parts(raw@) == Ok::<(Seq<char>, Seq<char>), MetaFault>(pair@),
                Err(e) => meta_parts(raw@) == Err::<(Seq<char>, Seq<char>), MetaFault>(e.fault())
                    && e.explains(raw@),
            },
    {
        proof {
            raw@.index_of_first_ensures('=');
        }
        let cut: usize = match find_char(raw, '=') {
            Some(cut) => cut,
            None => return Err(MetaParseError::MissingEquals(raw.to_owned())),
        };
        if cut == 0 {
            return Err(MetaParseError::EmptyKey(raw.to_owned()));
        }
        let key = raw.substring_char(0, cut);
        let len: usize = raw.unicode_len();
        let value = raw.substring_char(cut + 1, len);
        assert(key@ == raw@.take(cut as int));
        assert(value@ == raw@.skip(cut + 1));
        let name: String = match normal_key(key) {
            Ok(name) => name,
            Err(detail) => return Err(MetaParseError::InvalidKey { key: key.to_owned(), detail }),
        };
        let text: String = match checked_value(value) {
            Ok(text) => text,
            Err(detail) => return Err(MetaParseError::InvalidValue { key: name, detail }),
        };
        proof {
            law_header_name_is_normal(key@);
        }
        Ok(MetaPair { key: name, value: text })
    }

    /// The header name.
    pub fn key(&self) -> (r: &str)
        ensures
            r@ == self@.0,
    {
        self.key.as_str()
    }

    /// The header value.
    pub fn value(&self) -> (r: &str)
        ensures
            r@ == self@.1,
    {
        self.value.as_str()
    }
}

/// A header name in its normal form is its own normal form.
pub proof fn law_header_name_is_normal(key: Seq<char>)
    ensures
        header_name(key) matches Some(name) ==> header_name(name) == Some(name),
{
    if let Some(name) = header_name(key) {
        assert forall|i: int| 0 <= i < name.len() implies is_token(#[trigger] name[i]) by {
            assert(is_token(key[i]));
        }
        assert(lower_text(name) == name);
    }
}

/// The value keeps everything after the first `=`, further `=` too.
pub proof fn law_value_keeps_equals(key: Seq<char>, value: Seq<char>)
    requires
        !key.contains('='),
        header_name(key) is Some,
        valid_value(value),
    ensures
        meta_parts(key + "="@ + value) == Ok::<(Seq<char>, Seq<char>), MetaFault>(
            (header_name(key)->Some_0, value),
        ),
{
    law_pair_is_key_and_value(key, value);
}

/// A pair written as `key=value` parses back into the pair.
pub proof fn law_pair_reads_back(pair: (Seq<char>, Seq<char>))
    requires
        valid_pair(pair),
    ensures
        meta_parts(pair.0 + "="@ + pair.1) == Ok::<(Seq<char>, Seq<char>), MetaFault>(pair),
{
    assert forall|i: int| 0 <= i < pair.0.len() implies #[trigger] pair.0[i] != '=' by {
        assert(is_token(pair.0[i]));
    }
    law_value_keeps_equals(pair.0, pair.1);
}

/// `tonic::metadata::MetadataMap`: the headers of a request.
#[verifier::external_type_specification]
#[verifier::external_body]
pub struct ExMetadataMap(MetadataMap);

/// What a `MetadataMap` holds: for each header name the bytes of its values, in
/// the order in which they were attached.
pub uninterp spec fn header_entries(md: MetadataMap) -> Map<Seq<char>, Seq<Seq<u8>>>;

/// No headers.
pub open spec fn no_headers() -> Map<Seq<char>, Seq<Seq<u8>>> {
    Map::empty()
}

/// `tonic::metadata::MetadataMap::new`: the map holds nothing.
pub assume_specification[ MetadataMap::new ]() -> (md: MetadataMap)
    ensures
        header_entries(md) == no_headers(),
;

/// The most header names that a `MetadataMap` takes without fail. It holds up to
/// 32768 slots, and while its hash table shows many collisions it refuses to
/// grow once a fifth of that is in use.
pub const MAX_HEADER_NAMES: usize = 6553;

/// The values of `name` among the headers `entries`.
pub open spec fn values_of(entries: Map<Seq<char>, Seq<Seq<u8>>>, name: Seq<char>) -> Seq<Seq<u8>> {
    if entries.contains_key(name) {
        entries[name]
    } else {
        seq![]
    }
}

/// The headers `entries` with one more value for `name`, after those it has.
pub open spec fn with_header(
    entries: Map<Seq<char>, Seq<Seq<u8>>>,
    name: Seq<char>,
    value: Seq<char>,
) -> Map<Seq<char>, Seq<Seq<u8>>> {
    entries.insert(name, values_of(entries, name).push(vstd::utf8::encode_utf8(value)))
}

/// Calls `tonic::metadata::MetadataMap::append` with the key and the value that
/// `AsciiMetadataKey::from_bytes` and `AsciiMetadataValue::try_from` make of the
/// texts: the value is put after those that the key has, and nothing else
/// changes.
#[verifier::external_body]
fn append_header(md: &mut MetadataMap, name: &str, value: &str)
    requires
        valid_pair((name@, value@)),
        header_entries(*old(md)).dom().finite(),
        header_entries(*old(md)).dom().len() <= MAX_HEADER_NAMES,
    ensures
        header_entries(*final(md)) == with_header(header_entries(*old(md)), name@, value@),
{
    let key = AsciiMetadataKey::from_bytes(name.as_bytes()).unwrap();
    let value = AsciiMetadataValue::try_from(value).unwrap();
    md.append(key, value);
}

/// Whether there are exactly `n` names.
pub open spec fn counted(names: Set<Seq<char>>, n: nat) -> bool {
    names.finite() && names.len() == n
}

/// Calls `tonic::metadata::MetadataMap::keys_len`: how many header names the map
/// has values for.
#[verifier::external_body]
fn name_count(md: &MetadataMap) -> (n: usize)
    ensures
        counted(header_entries(*md).dom(), n as nat),
{
    md.keys_len()
}

/// Calls `tonic::metadata::MetadataMap::contains_key`: whether the map has a
/// value for the name, which is in its normal form.
#[verifier::external_body]
fn has_name(md: &MetadataMap, name: &str) -> (r: bool)
    requires
        header_name(name@) == Some(name@),
    ensures
        r == header_entries(*md).contains_key(name@),
{
    md.contains_key(name)
}

/// The headers `before` with the pairs of a list attached, one after the other.
pub open spec fn headers_after(
    before: Map<Seq<char>, Seq<Seq<u8>>>,
    pairs: Seq<(Seq<char>, Seq<char>)>,
) -> Map<Seq<char>, Seq<Seq<u8>>>
    decreases pairs.len(),
{
    if pairs.len() == 0 {
        before
    } else {
        with_header(headers_after(before, pairs.drop_last()), pairs.last().0, pairs.last().1)
    }
}

/// The headers that a list of pairs makes.
pub open spec fn headers_of(pairs: Seq<(Seq<char>, Seq<char>)>) -> Map<Seq<char>, Seq<Seq<u8>>> {
    headers_after(no_headers(), pairs)
}

/// The values that a list of pairs gives for `name`, in their order.
pub open spec fn values_given(pairs: Seq<(Seq<char>, Seq<char>)>, name: Seq<char>) -> Seq<
    Seq<u8>,
> {
    pairs.filter(|pair: (Seq<char>, Seq<char>)| pair.0 == name).map_values(
        |pair: (Seq<char>, Seq<char>)| vstd::utf8::encode_utf8(pair.1),
    )
}

/// The header names and values of a list of pairs.
pub open spec fn pairs_view(pairs: Seq<MetaPair>) -> Seq<(Seq<char>, Seq<char>)> {
    pairs.map_values(|pair: MetaPair| pair@)
}

/// The header names of a list of pairs, each once.
pub open spec fn header_names(pairs: Seq<(Seq<char>, Seq<char>)>) -> Set<Seq<char>> {
    pairs.map_values(|pair: (Seq<char>, Seq<char>)| pair.0).to_set()
}

/// The header names that a request has once the pairs are attached.
pub open spec fn names_after(
    before: Map<Seq<char>, Seq<Seq<u8>>>,
    pairs: Seq<(Seq<char>, Seq<char>)>,
) -> Set<Seq<char>> {
    before.dom().union(header_names(pairs))
}

/// One more pair has one more name, or none that is new.
proof fn lemma_names_push(
    before: Map<Seq<char>, Seq<Seq<u8>>>,
    pairs: Seq<(Seq<char>, Seq<char>)>,
)
    requires
        pairs.len() > 0,
    ensures
        header_names(pairs) == header_names(pairs.drop_last()).insert(pairs.last().0),
        names_after(before, pairs) == names_after(before, pairs.drop_last()).insert(
            pairs.last().0,
        ),
{
    let name = |pair: (Seq<char>, Seq<char>)| pair.0;
    let front = pairs.drop_last();
    assert(pairs.map_values(name) == front.map_values(name).push(pairs.last().0));
    front.map_values(name).lemma_push_to_set_commute(pairs.last().0);
    assert(names_after(before, pairs) =~= names_after(before, front).insert(pairs.last().0));
}

/// The headers after attaching pairs have the names they had and those of the
/// pairs, and no others.
proof fn lemma_headers_have_names(
    before: Map<Seq<char>, Seq<Seq<u8>>>,
    pairs: Seq<(Seq<char>, Seq<char>)>,
)
    ensures
        headers_after(before, pairs).dom() == names_after(before, pairs),
        before.dom().finite() ==> names_after(before, pairs).finite(),
    decreases pairs.len(),
{
    if pairs.len() == 0 {
        assert(headers_after(before, pairs).dom() =~= names_after(before, pairs));
    } else {
        let front = pairs.drop_last();
        lemma_headers_have_names(before, front);
        lemma_names_push(before, pairs);
        assert(headers_after(before, pairs).dom() =~= headers_after(before, front).dom().insert(
            pairs.last().0,
        ));
    }
}

/// The first of several pairs bring no more header names than all of them.
proof fn lemma_fewer_pairs_fewer_names(
    before: Map<Seq<char>, Seq<Seq<u8>>>,
    pairs: Seq<(Seq<char>, Seq<char>)>,
    n: int,
)
    requires
        before.dom().finite(),
        0 <= n <= pairs.len(),
    ensures
        names_after(before, pairs.take(n)).len() <= names_after(before, pairs).len(),
{
    lemma_headers_have_names(before, pairs);
    let name = |pair: (Seq<char>, Seq<char>)| pair.0;
    assert forall|x: Seq<char>| names_after(before, pairs.take(n)).contains(x) implies names_after(
        before,
        pairs,
    ).contains(x) by {
        if header_names(pairs.take(n)).contains(x) {
            let i = choose|i: int| 0 <= i < n && pairs.take(n).map_values(name)[i] == x;
            assert(pairs.map_values(name)[i] == x);
        }
    }
    vstd::set_lib::lemma_len_subset(names_after(before, pairs.take(n)), names_after(before, pairs));
}

/// Whether the pairs can be attached to the headers without passing the limit on
/// header names.
pub fn metadata_fits(md: &MetadataMap, pairs: &Vec<MetaPair>) -> (r: bool)
    ensures
        r == (header_entries(*md).dom().finite() && names_after(
            header_entries(*md),
            pairs_view(pairs@),
        ).len() <= MAX_HEADER_NAMES),
{
    let ghost all = pairs_view(pairs@);
    let ghost before = header_entries(*md);
    let mut count: usize = name_count(md);
    let mut seen = MetadataMap::new();
    let mut i: usize = 0;
    proof {
        assert(all.take(0) == Seq::<(Seq<char>, Seq<char>)>::empty());
        assert(names_after(before, all.take(0)) =~= before.dom());
        assert(header_names(all.take(0)) =~= no_headers().dom());
        lemma_fewer_pairs_fewer_names(before, all, 0);
    }
    if count > MAX_HEADER_NAMES {
        return false;
    }
    while i < pairs.len()
        invariant
            i <= pairs.len(),
            all == pairs_view(pairs@),
            before == header_entries(*md),
            before.dom().finite(),
            count <= MAX_HEADER_NAMES,
            count == names_after(before, all.take(i as int)).len(),
            names_after(before, all.take(i as int)).finite(),
            header_entries(seen).dom().finite(),
            header_entries(seen).dom().len() <= count,
            forall|x: Seq<char>|
                before.contains_key(x) || header_entries(seen).contains_key(x) <==> names_after(
                    before,
                    all.take(i as int),
                ).contains(x),
        decreases pairs.len() - i,
    {
        let pair: &MetaPair = &pairs[i];
        proof {
            use_type_invariant(pair);
            assert(all.take(i + 1).drop_last() == all.take(i as int));
            assert(all.take(i + 1).last() == pair@);
            lemma_names_push(before, all.take(i + 1));
            lemma_fewer_pairs_fewer_names(before, all, i + 1);
        }
        if !has_name(md, pair.key.as_str()) && !has_name(&seen, pair.key.as_str()) {
            if count == MAX_HEADER_NAMES {
                return false;
            }
            append_header(&mut seen, pair.key.as_str(), pair.value.as_str());
            count += 1;
        } else {
            assert(names_after(before, all.take(i + 1)) =~= names_after(
                before,
                all.take(i as int),
            ));
        }
        i += 1;
    }
    proof {
        assert(all.take(all.len() as int) == all);
    }
    true
}

/// Attaches the parsed metadata headers to those of an outgoing request. The
/// values that a header has stay, and those of the pairs follow, in their order.
pub fn apply_metadata(md: &mut MetadataMap, pairs: &Vec<MetaPair>)
    requires
        header_entries(*old(md)).dom().finite(),
        names_after(header_entries(*old(md)), pairs_view(pairs@)).len() <= MAX_HEADER_NAMES,
    ensures
        header_entries(*final(md)) == headers_after(
            header_entries(*old(md)),
            pairs_view(pairs@),
        ),
        header_entries(*final(md)).dom() == names_after(
            header_entries(*old(md)),
            pairs_view(pairs@),
        ),
        forall|name: Seq<char>| #[trigger]
            values_of(header_entries(*final(md)), name) == values_of(
                header_entries(*old(md)),
                name,
            ) + values_given(pairs_view(pairs@), name),
{
    let ghost all = pairs_view(pairs@);
    let ghost before = header_entries(*md);
    let mut i: usize = 0;
    while i < pairs.len()
        invariant
            i <= pairs.len(),
            all == pairs_view(pairs@),
            before.dom().finite(),
            names_after(before, all).len() <= MAX_HEADER_NAMES,
            header_entries(*md) == headers_after(before, all.take(i as int)),
        decreases pairs.len() - i,
    {
        let pair: &MetaPair = &pairs[i];
        proof {
            use_type_invariant(pair);
            lemma_headers_have_names(before, all.take(i as int));
            lemma_fewer_pairs_fewer_names(before, all, i as int);
            assert(all.take(i + 1).drop_last() == all.take(i as int));
            assert(all.take(i + 1).last() == pair@);
        }
        append_header(md, pair.key.as_str(), pair.value.as_str());
        i += 1;
    }
    proof {
        assert(all.take(all.len() as int) == all);
        lemma_headers_have_names(before, all);
        assert forall|name: Seq<char>| #[trigger]
            values_of(header_entries(*md), name) == values_of(before, name) + values_given(
                all,
                name,
            ) by {
            law_metadata_is_appended(before, all, name);
        }
    }
}

/// Attaching metadata overwrites and drops nothing: a header has the values it
/// had and then all the values given for its name, in the order in which they
/// were given, and no header appears that had none of either.
pub proof fn law_metadata_is_appended(
    before: Map<Seq<char>, Seq<Seq<u8>>>,
    pairs: Seq<(Seq<char>, Seq<char>)>,
    name: Seq<char>,
)
    ensures
        headers_after(before, pairs).contains_key(name) <==> before.contains_key(name)
            || header_names(pairs).contains(name),
        values_of(headers_after(before, pairs), name) == values_of(before, name) + values_given(
            pairs,
            name,
        ),
    decreases pairs.len(),
{
    lemma_headers_have_names(before, pairs);
    let wanted = |pair: (Seq<char>, Seq<char>)| pair.0 == name;
    let bytes = |pair: (Seq<char>, Seq<char>)| vstd::utf8::encode_utf8(pair.1);
    reveal(Seq::filter);
    if pairs.len() > 0 {
        let front = pairs.drop_last();
        law_metadata_is_appended(before, front, name);
        if pairs.last().0 == name {
            assert(pairs.filter(wanted) == front.filter(wanted).push(pairs.last()));
            assert(pairs.filter(wanted).map_values(bytes) == front.filter(wanted).map_values(
                bytes,
            ).push(bytes(pairs.last())));
        }
    } else {
        assert(values_given(pairs, name) == Seq::<Seq<u8>>::empty());
    }
}

/// Attaching two lists of pairs one after the other is attaching them as one.
pub proof fn law_metadata_in_two_steps(
    before: Map<Seq<char>, Seq<Seq<u8>>>,
    a: Seq<(Seq<char>, Seq<char>)>,
    b: Seq<(Seq<char>, Seq<char>)>,
)
    ensures
        headers_after(headers_after(before, a), b) == headers_after(before, a + b),
    decreases b.len(),
{
    if b.len() == 0 {
        assert(a + b == a);
    } else {
        law_metadata_in_two_steps(before, a, b.drop_last());
        assert((a + b).drop_last() == a + b.drop_last());
    }
}

/// A header name holds ASCII letters, digits and fifteen marks.
pub proof fn law_token_characters(c: char)
    ensures
        is_token(c) <==> "!#$%&'*+-.^_`|~0123456789abcdefghijklmnopqrstuvwxyzABCDEFGHIJKLMNOPQRSTUVWXYZ"@.contains(
            c,
        ),
{
    reveal_strlit(
        "!#$%&'*+-.^_`|~0123456789abcdefghijklmnopqrstuvwxyzABCDEFGHIJKLMNOPQRSTUVWXYZ",
    );
    let all =
        "!#$%&'*+-.^_`|~0123456789abcdefghijklmnopqrstuvwxyzABCDEFGHIJKLMNOPQRSTUVWXYZ"@;
    if is_token(c) {
        let i: int = if '0' <= c <= '9' {
            c as u32 - '0' as u32 + 15
        } else if 'a' <= c <= 'z' {
            c as u32 - 'a' as u32 + 25
        } else if 'A' <= c <= 'Z' {
            c as u32 - 'A' as u32 + 51
        } else if c == '!' {
            0
        } else if c == '#' {
            1
        } else if c == '$' {
            2
        } else if c == '%' {
            3
        } else if c == '&' {
            4
        } else if c == '\'' {
            5
        } else if c == '*' {
            6
        } else if c == '+' {
            7
        } else if c == '-' {
            8
        } else if c == '.' {
            9
        } else if c == '^' {
            10
        } else if c == '_' {
            11
        } else if c == '`' {
            12
        } else if c == '|' {
            13
        } else {
            14
        };
        assert(all[i] == c);
    }
}

/// A key names a header exactly when it is one to 65535 token characters and is
/// not kept for binary values; the name is the key with its capitals made small
/// and everything else as it was.
pub proof fn law_header_names(key: Seq<char>)
    ensures
        header_name(key) is Some <==> 1 <= key.len() <= 65535 && (forall|i: int|
            0 <= i < key.len() ==> is_token(#[trigger] key[i])) && !"-bin"@.is_suffix_of(
            lower_text(key),
        ),
        header_name(key) matches Some(name) ==> name.len() == key.len() && (forall|i: int|
            0 <= i < key.len() ==> (if 'A' <= key[i] <= 'Z' {
                #[trigger] name[i] as u32 == key[i] as u32 + 32
            } else {
                name[i] == key[i]
            })),
        lower_text(key).len() == key.len(),
        forall|i: int|
            0 <= i < key.len() ==> (if 'A' <= key[i] <= 'Z' {
                #[trigger] lower_text(key)[i] as u32 == key[i] as u32 + 32
            } else {
                lower_text(key)[i] == key[i]
            }),
{
}

/// A value may hold anything but control characters, of which it may hold tabs.
pub proof fn law_header_values(value: Seq<char>)
    ensures
        valid_value(value) <==> (forall|i: int|
            0 <= i < value.len() ==> (#[trigger] value[i] as int == 9 || (value[i] as int >= 32
                && value[i] as int != 127))),
{
}

/// A text without `=` is no pair, nor is one with nothing before its first `=`.
pub proof fn law_pair_needs_key(raw: Seq<char>)
    ensures
        !raw.contains('=') ==> meta_parts(raw) == Err::<(Seq<char>, Seq<char>), MetaFault>(
            MetaFault::MissingEquals,
        ),
        raw.len() > 0 && raw[0] == '=' ==> meta_parts(raw) == Err::<
            (Seq<char>, Seq<char>),
            MetaFault,
        >(MetaFault::EmptyKey),
{
    raw.index_of_first_ensures('=');
}

/// Any other text is a key, an `=` and a value. It is refused for its key where
/// that names no header, else for its value where that cannot be sent, and else
/// it is the header of that name with the value as it is written.
pub proof fn law_pair_is_key_and_value(key: Seq<char>, value: Seq<char>)
    requires
        key.len() > 0,
        !key.contains('='),
    ensures
        header_name(key) is None ==> meta_parts(key + "="@ + value) == Err::<
            (Seq<char>, Seq<char>),
            MetaFault,
        >(MetaFault::InvalidKey),
        header_name(key) is Some && !valid_value(value) ==> meta_parts(key + "="@ + value) == Err::<
            (Seq<char>, Seq<char>),
            MetaFault,
        >(MetaFault::InvalidValue),
        header_name(key) is Some && valid_value(value) ==> meta_parts(key + "="@ + value) == Ok::<
            (Seq<char>, Seq<char>),
            MetaFault,
        >((header_name(key)->Some_0, value)),
{
    lemma_first_equals(key, value);
}

proof fn lemma_first_equals(key: Seq<char>, value: Seq<char>)
    requires
        !key.contains('='),
    ensures
        (key + "="@ + value).index_of_first('=') == Some(key.len() as int),
        (key + "="@ + value).take(key.len() as int) == key,
        (key + "="@ + value).skip(key.len() as int + 1) == value,
{
    reveal_strlit("=");
    let raw = key + "="@ + value;
    let cut = key.len() as int;
    assert(raw[cut] == '=');
    raw.index_of_first_ensures('=');
    let first = raw.index_of_first('=')->Some_0;
    if first < cut {
        assert(key[first] == '=');
    }
    assert(raw.take(cut) == key);
    assert(raw.skip(cut + 1) == value);
}

/// An error is of the kind of its variant, and its message quotes the text or
/// the key that is wrong and says why.
pub proof fn law_metadata_errors(err: MetaParseError, quoted: Seq<char>)
    ensures
        match err {
            MetaParseError::MissingEquals(raw) => err.fault() == MetaFault::MissingEquals
                && err.subject() == raw@ && err.description(quoted) == "metadata "@ + quoted
                + " must be key=value"@,
            MetaParseError::EmptyKey(raw) => err.fault() == MetaFault::EmptyKey && err.subject()
                == raw@ && err.description(quoted) == "metadata "@ + quoted + " has an empty key"@,
            MetaParseError::InvalidKey { key, detail } => err.fault() == MetaFault::InvalidKey
                && err.subject() == key@ && err.description(quoted) == "metadata key "@ + quoted
                + " is not a valid header name: "@ + detail@,
            MetaParseError::InvalidValue { key, detail } => err.fault() == MetaFault::InvalidValue
                && err.subject() == key@ && err.description(quoted) == "metadata value for "@
                + quoted + " is not valid: "@ + detail@,
        },
{
}

/// An error that explains a text holds that text, or the key in it: as it was
/// given where the key is wrong, in its normal form where the value is.
pub proof fn law_metadata_errors_explain(
    err: MetaParseError,
    key: Seq<char>,
    value: Seq<char>,
    raw: Seq<char>,
)
    requires
        !key.contains('='),
    ensures
        err.explains(raw) ==> (err matches MetaParseError::MissingEquals(text) ==> text@ == raw)
            && (err matches MetaParseError::EmptyKey(text) ==> text@ == raw),
        err.explains(key + "="@ + value) ==> (err matches MetaParseError::InvalidKey {
            key: given,
            detail,
        } ==> given@ == key && detail@ == "invalid gRPC metadata key name"@) && (
        err matches MetaParseError::InvalidValue { key: name, detail } ==> header_name(key)
            == Some(name@) && detail@ == "failed to parse metadata value"@),
{
    lemma_first_equals(key, value);
}

/// Attaching one value touches no other header, and puts the bytes of the value
/// last among those of its own.
pub proof fn law_header_is_added(
    entries: Map<Seq<char>, Seq<Seq<u8>>>,
    name: Seq<char>,
    value: Seq<char>,
    other: Seq<char>,
)
    ensures
        ({
            let after = with_header(entries, name, value);
            &&& after.contains_key(name)
            &&& after[name].last() == vstd::utf8::encode_utf8(value)
            &&& entries.contains_key(name) ==> after[name].drop_last() == entries[name]
            &&& !entries.contains_key(name) ==> after[name].len() == 1
            &&& other != name ==> after.contains_key(other) == entries.contains_key(other)
                && after[other] == entries[other]
        }),
        entries.contains_key(name) ==> values_of(entries, name) == entries[name],
        !entries.contains_key(name) ==> values_of(entries, name).len() == 0,
{
    if entries.contains_key(name) {
        assert(entries[name].push(vstd::utf8::encode_utf8(value)).drop_last() == entries[name]);
    }
}

/// The values given for a name are those of the pairs with that name, each where
/// it comes, and no pair with another name gives one.
pub proof fn law_values_given(
    pairs: Seq<(Seq<char>, Seq<char>)>,
    key: Seq<char>,
    value: Seq<char>,
    name: Seq<char>,
)
    ensures
        values_given(Seq::empty(), name) == Seq::<Seq<u8>>::empty(),
        key == name ==> values_given(pairs.push((key, value)), name) == values_given(
            pairs,
            name,
        ).push(vstd::utf8::encode_utf8(value)),
        key != name ==> values_given(pairs.push((key, value)), name) == values_given(pairs, name),
{
    reveal(Seq::filter);
    let wanted = |pair: (Seq<char>, Seq<char>)| pair.0 == name;
    let bytes = |pair: (Seq<char>, Seq<char>)| vstd::utf8::encode_utf8(pair.1);
    assert(pairs.push((key, value)).drop_last() == pairs);
    if key == name {
        assert(pairs.push((key, value)).filter(wanted) == pairs.filter(wanted).push((key, value)));
        assert(pairs.filter(wanted).push((key, value)).map_values(bytes) == pairs.filter(
            wanted,
        ).map_values(bytes).push(bytes((key, value))));
    }
}

/// The header names are the names of the pairs, and those after attaching them
/// are these and the ones there were before.
pub proof fn law_names_given(
    before: Map<Seq<char>, Seq<Seq<u8>>>,
    pairs: Seq<(Seq<char>, Seq<char>)>,
    name: Seq<char>,
)
    ensures
        header_names(pairs).contains(name) <==> exists|i: int|
            0 <= i < pairs.len() && (#[trigger] pairs[i]).0 == name,
        names_after(before, pairs).contains(name) <==> before.contains_key(name) || exists|i: int|
            0 <= i < pairs.len() && (#[trigger] pairs[i]).0 == name,
        headers_of(pairs) == headers_after(no_headers(), pairs),
        !no_headers().contains_key(name),
        MAX_HEADER_NAMES == 6553,
{
    let names = pairs.map_values(|pair: (Seq<char>, Seq<char>)| pair.0);
    assert forall|i: int| 0 <= i < pairs.len() implies names[i] == (#[trigger] pairs[i]).0 by {}
    if header_names(pairs).contains(name) {
        let i = choose|i: int| 0 <= i < names.len() && names[i] == name;
        assert(pairs[i].0 == name);
    }
    if exists|i: int| 0 <= i < pairs.len() && (#[trigger] pairs[i]).0 == name {
        let i = choose|i: int| 0 <= i < pairs.len() && (#[trigger] pairs[i]).0 == name;
        assert(names[i] == name);
        assert(names.contains(name));
    }
}

/// Each pair of a list is in its place.
pub proof fn law_pairs_keep_their_places(pairs: Seq<MetaPair>)
    ensures
        pairs_view(pairs).len() == pairs.len(),
        forall|i: int| 0 <= i < pairs.len() ==> #[trigger] pairs_view(pairs)[i] == pairs[i]@,
{
}

} // verus!
