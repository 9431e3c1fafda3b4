use vstd::prelude::*;

use crate::combinators::combinator_type::{run_chain, spec_run_chain};
use crate::errors::BfpError;
use crate::retrievers::retriever::{RetState, Retriever};
use crate::types::base_struct::{BaseStruct, SpecRecord};
use crate::types::bfp_list::{BfpList, SpecList};
use crate::types::bfp_type::{share_type, spec_decode_prim, BfpType};
use crate::types::byte_stream::{ByteStream, StreamView};
use crate::types::parseable_type::{view_table, view_values, ParseableType, SpecValue};
use crate::types::version::Version;

verus! {

broadcast use
    vstd::seq::axiom_seq_index_decreases,
    vstd::std_specs::vec::axiom_vec_decreases_to_view,
    vstd::std_specs::vec::axiom_vec_index_decreases;

/// A wire type is well formed when any record schema it carries is.
pub open spec fn spec_type_wf(t: BfpType) -> bool
    decreases t, 3nat,
{
    match t {
        BfpType::Struct(sch) => spec_schema_wf(sch),
        _ => true,
    }
}

/// A schema is well formed when every field descriptor is well formed and
/// carries its own dense slot index.
pub open spec fn spec_schema_wf(sch: Struct) -> bool
    decreases sch, 3nat,
{
    spec_rets_wf(sch.retrievers@)
}

/// The ordered schema of one record type: its field descriptors in
/// declaration order. Built once, at schema-definition time, then shared
/// immutably by every parse of that record type.
#[derive(Debug)]
pub struct Struct {
    pub retrievers: Vec<Retriever>,
}

/// A field-descriptor sequence is well formed when every descriptor
/// carries its own dense slot index and an ordered version range.
pub open spec fn spec_rets_wf(rets: Seq<Retriever>) -> bool
    decreases rets, 2nat,
{
    forall|i: int| 0 <= i < rets.len() ==> (#[trigger] rets[i]).wf_at(i)
}

impl Struct {
    /// A schema is well formed when every field descriptor carries its own
    /// dense slot index and an ordered version range.
    pub open spec fn wf(&self) -> bool {
        spec_rets_wf(self.retrievers@)
    }

    /// An empty schema, to be filled by `append`.
    pub fn new() -> (s: Struct)
        ensures
            s.wf(),
            s.retrievers@.len() == 0,
    {
        Struct { retrievers: Vec::new() }
    }

    /// Appends one field descriptor, assigning it the next slot index.
    /// Returns that index.
    pub fn append(&mut self, retriever: Retriever) -> (idx: usize)
        requires
            old(self).wf(),
            retriever.wf(),
        ensures
            final(self).wf(),
            idx == old(self).retrievers@.len(),
            final(self).retrievers@.len() == old(self).retrievers@.len() + 1,
            forall|i: int|
                0 <= i < old(self).retrievers@.len() ==> final(self).retrievers@[i] == old(
                    self,
                ).retrievers@[i],
            final(self).retrievers@[idx as int] == retriever.with_idx_spec(idx),
    {
        let mut retriever = retriever;
        let idx = self.retrievers.len();
        retriever.idx = idx;
        self.retrievers.push(retriever);
        idx
    }

    /// Number of fields in the schema.
    pub fn len(&self) -> (n: usize)
        ensures
            n == self.retrievers@.len(),
    {
        self.retrievers.len()
    }
}

/// A table of `n` unpopulated slots, as every parse starts with.
pub open spec fn spec_none_table<T>(n: nat) -> Seq<Option<T>> {
    Seq::new(n, |i: int| Option::<T>::None)
}

/// What decoding one value of type `t` does to a stream: a primitive
/// consumes its fixed width; a nested record schema runs the whole field
/// loop on fresh tables, with the parent's resolved version and no hooks.
pub open spec fn spec_decode_value(t: BfpType, ver: Seq<i32>, s: StreamView) -> Result<
    (SpecValue, StreamView),
    BfpError,
>
    decreases t, 0nat, 0nat,
{
    match t {
        BfpType::Struct(sch) => match spec_parse(sch, ver, s) {
            Result::Err(e) => Result::Err(e),
            Result::Ok((rec, s2)) => Result::Ok((SpecValue::Struct(rec), s2)),
        },
        _ => spec_decode_prim(t, s),
    }
}

/// What decoding `n` values of type `t` in sequence does to a stream.
pub open spec fn spec_decode_list(t: BfpType, ver: Seq<i32>, n: nat, s: StreamView) -> Result<
    (Seq<SpecValue>, StreamView),
    BfpError,
>
    decreases t, n, 1nat,
{
    if n == 0 {
        Result::Ok((Seq::empty(), s))
    } else {
        match spec_decode_value(t, ver, s) {
            Result::Err(e) => Result::Err(e),
            Result::Ok((v, s2)) => match spec_decode_list(t, ver, (n - 1) as nat, s2) {
                Result::Err(e) => Result::Err(e),
                Result::Ok((vs, s3)) => Result::Ok((seq![v] + vs, s3)),
            },
        }
    }
}

/// The field loop of one parse, from field `i` on: a field outside the
/// resolved version stores the absent marker and consumes nothing; a
/// compressed span fails (the hookless engine has no decompressor); an
/// absent-state field stores the marker; a scalar decodes one value; a
/// list decodes its effective repeat count of values, which must not be
/// negative. After a field inside the version range is stored, its
/// post-read combinator chain runs on the tables.
pub open spec fn spec_parse_fields(
    rets: Seq<Retriever>,
    ver: Seq<i32>,
    s: StreamView,
    i: int,
    data: Seq<Option<SpecValue>>,
    repeats: Seq<Option<isize>>,
) -> Result<(Seq<Option<SpecValue>>, Seq<Option<isize>>, StreamView), BfpError>
    decreases rets, rets.len() - i, 2nat,
{
    if i < 0 || i >= rets.len() {
        Result::Ok((data, repeats, s))
    } else {
        let ret = rets[i];
        if !ret.spec_supported(ver) {
            spec_parse_fields(
                rets,
                ver,
                s,
                i + 1,
                data.update(i, Option::Some(SpecValue::Absent)),
                repeats,
            )
        } else if ret.remaining_compressed {
            Result::Err(BfpError::CompressionUnsupported { field: i as usize })
        } else {
            let step = match ret.spec_state(repeats) {
                RetState::Absent => Result::Ok(
                    (data.update(i, Option::Some(SpecValue::Absent)), s),
                ),
                RetState::Value => match spec_decode_value(*ret.data_type, ver, s) {
                    Result::Err(e) => Result::Err(e),
                    Result::Ok((v, s2)) => Result::Ok((data.update(i, Option::Some(v)), s2)),
                },
                RetState::List => {
                    let n = ret.spec_repeat(repeats);
                    if n < 0 {
                        Result::Err(BfpError::ValueOutOfRange { field: i as usize })
                    } else {
                        match spec_decode_list(*ret.data_type, ver, n as nat, s) {
                            Result::Err(e) => Result::Err(e),
                            Result::Ok((elems, s2)) => Result::Ok(
                                (
                                    data.update(
                                        i,
                                        Option::Some(
                                            SpecValue::Array(
                                                SpecList { elems, data_type: ret.data_type },
                                            ),
                                        ),
                                    ),
                                    s2,
                                ),
                            ),
                        }
                    }
                },
            };
            match step {
                Result::Err(e) => Result::Err(e),
                Result::Ok((d2, s2)) => match spec_run_chain(ret.on_read@, rets, d2, repeats) {
                    Result::Err(e) => Result::Err(e),
                    Result::Ok((d3, r3)) => spec_parse_fields(rets, ver, s2, i + 1, d3, r3),
                },
            }
        }
    }
}

/// What one whole hookless parse does: the field loop from the first
/// field, on fresh tables, with the requested version as the resolved
/// version, packaged as one parsed record.
pub open spec fn spec_parse(sch: Struct, ver: Seq<i32>, s: StreamView) -> Result<
    (SpecRecord, StreamView),
    BfpError,
>
    decreases sch, 0nat, 3nat,
{
    match spec_parse_fields(
        sch.retrievers@,
        ver,
        s,
        0,
        spec_none_table(sch.retrievers@.len()),
        spec_none_table(sch.retrievers@.len()),
    ) {
        Result::Err(e) => Result::Err(e),
        Result::Ok((d, rep, s2)) => Result::Ok(
            (SpecRecord { ver, data: d, repeats: rep }, s2),
        ),
    }
}

/// Decodes `cnt` values of the field's wire type in sequence into one
/// list's elements.
#[verifier::loop_isolation(false)]
fn decode_list(ret: &Retriever, cnt: usize, stream: &mut ByteStream, ver: &Version) -> (r: Result<
    Vec<ParseableType>,
    BfpError,
>)
    requires
        ret.wf(),
        old(stream)@.wf(),
    ensures
        final(stream)@.wf(),
        final(stream)@.bytes == old(stream)@.bytes,
        (match spec_decode_list(*ret.data_type, ver@, cnt as nat, old(stream)@) {
            Result::Ok((elems, s2)) => r matches Ok(ls) && view_values(ls@) == elems
                && final(stream)@ == s2,
            Result::Err(e) => r == Result::<Vec<ParseableType>, BfpError>::Err(e),
        }),
    decreases *ret, 2nat,
{
    let mut out: Vec<ParseableType> = Vec::new();
    let mut k: usize = 0;
    proof {
        assert(view_values(out@) + spec_decode_list(
            *ret.data_type,
            ver@,
            cnt as nat,
            stream@,
        )->Ok_0.0 =~= spec_decode_list(*ret.data_type, ver@, cnt as nat, stream@)->Ok_0.0);
    }
    while k < cnt
        invariant
            0 <= k <= cnt,
            out@.len() == k,
            stream@.wf(),
            stream@.bytes == old(stream)@.bytes,
            (match spec_decode_list(*ret.data_type, ver@, (cnt - k) as nat, stream@) {
                Result::Ok((rest, s2)) => spec_decode_list(
                    *ret.data_type,
                    ver@,
                    cnt as nat,
                    old(stream)@,
                ) == Result::<(Seq<SpecValue>, StreamView), BfpError>::Ok(
                    (view_values(out@) + rest, s2),
                ),
                Result::Err(e) => spec_decode_list(*ret.data_type, ver@, cnt as nat, old(stream)@)
                    == Result::<(Seq<SpecValue>, StreamView), BfpError>::Err(e),
            }),
        decreases cnt - k,
    {
        let ghost pre_s = stream@;
        let ghost pre_out = out@;
        let v = match ret.from_stream(stream, ver) {
            Ok(v) => v,
            Err(e) => {
                return Err(e);
            },
        };
        let ghost vv = v@;
        out.push(v);
        proof {
            let t = *ret.data_type;
            let m = (cnt - k) as nat;
            assert(spec_decode_value(t, ver@, pre_s) == Result::<
                (SpecValue, StreamView),
                BfpError,
            >::Ok((vv, stream@)));
            assert(view_values(out@) =~= view_values(pre_out).push(vv));
            match spec_decode_list(t, ver@, (m - 1) as nat, stream@) {
                Result::Ok((rest2, s3)) => {
                    assert(view_values(pre_out) + (seq![vv] + rest2) =~= view_values(out@) + rest2);
                },
                Result::Err(_) => {},
            }
        }
        k = k + 1;
    }
    proof {
        assert(spec_decode_list(*ret.data_type, ver@, 0, stream@) == Result::<
            (Seq<SpecValue>, StreamView),
            BfpError,
        >::Ok((Seq::empty(), stream@)));
        assert(view_values(out@) + Seq::<SpecValue>::empty() =~= view_values(out@));
    }
    Ok(out)
}

impl Struct {
    /// Parses one record from the stream against the requested version,
    /// with no version-discovery and no decompression hook: the resolved
    /// version is the requested version, and a field that asks for
    /// compressed handling fails. Yields the populated value table, the
    /// repeat-count table and the resolved version as the parsed record.
    #[verifier::loop_isolation(false)]
    pub fn parse(&self, stream: &mut ByteStream, ver: &Version) -> (r: Result<
        BaseStruct,
        BfpError,
    >)
        requires
            self.wf(),
            old(stream)@.wf(),
        ensures
            final(stream)@.wf(),
            final(stream)@.bytes == old(stream)@.bytes,
            r matches Ok(b) ==> b@.ver == ver@ && b@.data.len() == self.retrievers@.len()
                && b@.repeats.len() == self.retrievers@.len(),
            (match spec_parse(*self, ver@, old(stream)@) {
                Result::Ok((rec, s2)) => r matches Ok(b) && b@ == rec && final(stream)@ == s2,
                Result::Err(e) => r == Result::<BaseStruct, BfpError>::Err(e),
            }),
        decreases *self, 0nat,
    {
        let n = self.retrievers.len();
        let mut data: Vec<Option<ParseableType>> = Vec::new();
        let mut repeats: Vec<Option<isize>> = Vec::new();
        let mut j: usize = 0;
        while j < n
            invariant
                data@.len() == j,
                repeats@.len() == j,
                0 <= j <= n,
                forall|l: int| 0 <= l < j ==> data@[l] is None,
                forall|l: int| 0 <= l < j ==> repeats@[l] is None,
            decreases n - j,
        {
            data.push(None);
            repeats.push(None);
            j = j + 1;
        }
        proof {
            assert(view_table(data@) =~= spec_none_table(n as nat));
            assert(repeats@ =~= spec_none_table(n as nat));
        }
        let ghost s0 = stream@;
        let ghost rets = self.retrievers@;
        let mut i: usize = 0;
        while i < n
            invariant
                0 <= i <= n,
                data@.len() == n,
                repeats@.len() == n,
                stream@.wf(),
                stream@.bytes == s0.bytes,
                spec_parse_fields(rets, ver@, s0, 0, spec_none_table(n as nat), spec_none_table(n as nat))
                    == spec_parse_fields(rets, ver@, stream@, i as int, view_table(data@), repeats@),
            decreases n - i,
        {
            let ghost pre_s = stream@;
            let ghost pre_d = view_table(data@);
            let ghost pre_r = repeats@;
            let ret = &self.retrievers[i];
            proof {
                assert(rets[i as int] == *ret);
                assert(rets[i as int].wf_at(i as int));
            }
            if !ret.supported(ver) {
                data.set(i, Some(ParseableType::Absent));
                proof {
                    assert(view_table(data@) =~= pre_d.update(
                        i as int,
                        Option::Some(SpecValue::Absent),
                    ));
                }
            } else if ret.remaining_compressed {
                return Err(BfpError::CompressionUnsupported { field: i });
            } else {
                match ret.state(&repeats) {
                    RetState::Absent => {
                        data.set(i, Some(ParseableType::Absent));
                        proof {
                            assert(view_table(data@) =~= pre_d.update(
                                i as int,
                                Option::Some(SpecValue::Absent),
                            ));
                        }
                    },
                    RetState::Value => {
                        let v = match ret.from_stream(stream, ver) {
                            Ok(v) => v,
                            Err(e) => {
                                return Err(e);
                            },
                        };
                        let ghost vv = v@;
                        data.set(i, Some(v));
                        proof {
                            assert(view_table(data@) =~= pre_d.update(
                                i as int,
                                Option::Some(vv),
                            ));
                        }
                    },
                    RetState::List => {
                        let cnt = ret.repeat(&repeats);
                        if cnt < 0 {
                            return Err(BfpError::ValueOutOfRange { field: i });
                        }
                        let ls = match decode_list(ret, cnt as usize, stream, ver) {
                            Ok(ls) => ls,
                            Err(e) => {
                                return Err(e);
                            },
                        };
                        let ghost elems = view_values(ls@);
                        let value = ParseableType::Array(
                            BfpList::new(ls, share_type(&ret.data_type)),
                        );
                        data.set(i, Some(value));
                        proof {
                            assert(view_table(data@) =~= pre_d.update(
                                i as int,
                                Option::Some(
                                    SpecValue::Array(
                                        SpecList { elems, data_type: ret.data_type },
                                    ),
                                ),
                            ));
                        }
                    },
                }
                match run_chain(&ret.on_read, &self.retrievers, &mut data, &mut repeats, ver) {
                    Ok(()) => (),
                    Err(e) => {
                        return Err(e);
                    },
                }
            }
            i = i + 1;
        }
        proof {
            assert(spec_parse_fields(rets, ver@, stream@, n as int, view_table(data@), repeats@)
                == Result::<(Seq<Option<SpecValue>>, Seq<Option<isize>>, StreamView), BfpError>::Ok(
                (view_table(data@), repeats@, stream@),
            ));
        }
        let result = BaseStruct::new(ver.clone(), data, repeats);
        Ok(result)
    }
}

/// A per-record-type version-discovery hook: invoked with the stream and
/// the requested version, it may read a magic or version header (consuming
/// bytes) and yield the effective version. Yielding `None` signals no
/// custom discovery; the engine then uses the requested version unchanged.
/// An error aborts the whole parse.
pub trait VersionFinder {
    fn find_version(&self, stream: &mut ByteStream, ver: &Version) -> (r: Result<
        Option<Version>,
        BfpError,
    >)
        requires
            old(stream)@.wf(),
        ensures
            final(stream)@.wf(),
    ;
}

/// A per-record-type decompression hook: turns the compressed unread tail
/// of a stream into the plain bytes the remaining fields decode from.
pub trait Decompressor {
    fn decompress(&self, bytes: &Vec<u8>) -> Result<Vec<u8>, BfpError>;
}

/// A record type with no custom version discovery.
pub struct NoVersionFinder;

impl VersionFinder for NoVersionFinder {
    fn find_version(&self, _stream: &mut ByteStream, _ver: &Version) -> (r: Result<
        Option<Version>,
        BfpError,
    >) {
        Ok(None)
    }
}

/// A record type with no decompression hook.
pub struct NoDecompressor;

impl Decompressor for NoDecompressor {
    fn decompress(&self, _bytes: &Vec<u8>) -> Result<Vec<u8>, BfpError> {
        Err(BfpError::CompressionUnsupported { field: 0 })
    }
}

/// Whether no field of the schema asks for compressed handling.
pub open spec fn spec_no_compressed(rets: Seq<Retriever>) -> bool {
    forall|i: int| 0 <= i < rets.len() ==> !(#[trigger] rets[i]).remaining_compressed
}

impl Struct {
    /// Parses one record with this record type's hooks. The effective
    /// version comes from the version-discovery hook when one is given and
    /// it yields one, else it is the requested version. When a field asks
    /// for compressed handling, the unread tail is consumed, handed to the
    /// decompression hook, and the remaining fields (this one included)
    /// decode from the decompressed bytes; with no decompression hook that
    /// field fails.
    ///
    /// The hooks are outside code, so this contract states what holds of
    /// every outcome: a parsed record's tables cover every field; on a
    /// schema without compressed spans the record is exactly what the
    /// field loop says, run from the stream as the version hook left it
    /// and against the resolved version the record carries; and with no
    /// version hook either, it is exactly the hookless parse.
    #[verifier::loop_isolation(false)]
    pub fn parse_with<V: VersionFinder, D: Decompressor>(
        &self,
        stream: &mut ByteStream,
        ver: &Version,
        vf: Option<&V>,
        d: Option<&D>,
    ) -> (r: Result<BaseStruct, BfpError>)
        requires
            self.wf(),
            old(stream)@.wf(),
        ensures
            final(stream)@.wf(),
            r matches Ok(b) ==> b@.data.len() == self.retrievers@.len() && b@.repeats.len()
                == self.retrievers@.len(),
            (vf is None && spec_no_compressed(self.retrievers@)) ==> (match spec_parse(
                *self,
                ver@,
                old(stream)@,
            ) {
                Result::Ok((rec, s2)) => r matches Ok(b) && b@ == rec && final(stream)@ == s2,
                Result::Err(e) => r == Result::<BaseStruct, BfpError>::Err(e),
            }),
            spec_no_compressed(self.retrievers@) ==> (r matches Ok(b) ==> exists|m: StreamView|
                m.wf() && spec_parse_fields(
                    self.retrievers@,
                    b@.ver,
                    m,
                    0,
                    spec_none_table(self.retrievers@.len()),
                    spec_none_table(self.retrievers@.len()),
                ) == Result::<(Seq<Option<SpecValue>>, Seq<Option<isize>>, StreamView), BfpError>::Ok(
                    (b@.data, b@.repeats, final(stream)@),
                )),
    {
        let effective: Version = match vf {
            None => ver.clone(),
            Some(f) => match f.find_version(stream, ver) {
                Ok(Some(v)) => v,
                Ok(None) => ver.clone(),
                Err(e) => {
                    return Err(e);
                },
            },
        };
        let ghost mid = stream@;
        let ghost nc = spec_no_compressed(self.retrievers@);
        let n = self.retrievers.len();
        let mut data: Vec<Option<ParseableType>> = Vec::new();
        let mut repeats: Vec<Option<isize>> = Vec::new();
        let mut j: usize = 0;
        while j < n
            invariant
                data@.len() == j,
                repeats@.len() == j,
                0 <= j <= n,
                forall|l: int| 0 <= l < j ==> data@[l] is None,
                forall|l: int| 0 <= l < j ==> repeats@[l] is None,
            decreases n - j,
        {
            data.push(None);
            repeats.push(None);
            j = j + 1;
        }
        proof {
            assert(view_table(data@) =~= spec_none_table(n as nat));
            assert(repeats@ =~= spec_none_table(n as nat));
        }
        let ghost rets = self.retrievers@;
        let mut i: usize = 0;
        while i < n
            invariant
                0 <= i <= n,
                data@.len() == n,
                repeats@.len() == n,
                stream@.wf(),
                vf is None ==> effective@ == ver@ && mid == old(stream)@,
                nc ==> spec_parse_fields(
                    rets,
                    effective@,
                    mid,
                    0,
                    spec_none_table(n as nat),
                    spec_none_table(n as nat),
                ) == spec_parse_fields(
                    rets,
                    effective@,
                    stream@,
                    i as int,
                    view_table(data@),
                    repeats@,
                ),
            decreases n - i,
        {
            let ghost pre_d = view_table(data@);
            let ret = &self.retrievers[i];
            proof {
                assert(rets[i as int] == *ret);
                assert(rets[i as int].wf_at(i as int));
            }
            if !ret.supported(&effective) {
                data.set(i, Some(ParseableType::Absent));
                proof {
                    assert(view_table(data@) =~= pre_d.update(
                        i as int,
                        Option::Some(SpecValue::Absent),
                    ));
                }
            } else {
                if ret.remaining_compressed {
                    let decompressor = match d {
                        None => {
                            return Err(BfpError::CompressionUnsupported { field: i });
                        },
                        Some(dec) => dec,
                    };
                    let tail = stream.remaining();
                    let plain = match decompressor.decompress(&tail) {
                        Ok(p) => p,
                        Err(e) => {
                            return Err(e);
                        },
                    };
                    *stream = ByteStream::from_bytes(plain);
                }
                match ret.state(&repeats) {
                    RetState::Absent => {
                        data.set(i, Some(ParseableType::Absent));
                        proof {
                            assert(view_table(data@) =~= pre_d.update(
                                i as int,
                                Option::Some(SpecValue::Absent),
                            ));
                        }
                    },
                    RetState::Value => {
                        let v = match ret.from_stream(stream, &effective) {
                            Ok(v) => v,
                            Err(e) => {
                                return Err(e);
                            },
                        };
                        let ghost vv = v@;
                        data.set(i, Some(v));
                        proof {
                            assert(view_table(data@) =~= pre_d.update(
                                i as int,
                                Option::Some(vv),
                            ));
                        }
                    },
                    RetState::List => {
                        let cnt = ret.repeat(&repeats);
                        if cnt < 0 {
                            return Err(BfpError::ValueOutOfRange { field: i });
                        }
                        let ls = match decode_list(ret, cnt as usize, stream, &effective) {
                            Ok(ls) => ls,
                            Err(e) => {
                                return Err(e);
                            },
                        };
                        let ghost elems = view_values(ls@);
                        let value = ParseableType::Array(
                            BfpList::new(ls, share_type(&ret.data_type)),
                        );
                        data.set(i, Some(value));
                        proof {
                            assert(view_table(data@) =~= pre_d.update(
                                i as int,
                                Option::Some(
                                    SpecValue::Array(
                                        SpecList { elems, data_type: ret.data_type },
                                    ),
                                ),
                            ));
                        }
                    },
                }
                match run_chain(&ret.on_read, &self.retrievers, &mut data, &mut repeats, &effective)
                {
                    Ok(()) => (),
                    Err(e) => {
                        return Err(e);
                    },
                }
            }
            i = i + 1;
        }
        proof {
            if nc {
                assert(spec_parse_fields(
                    rets,
                    effective@,
                    stream@,
                    n as int,
                    view_table(data@),
                    repeats@,
                ) == Result::<
                    (Seq<Option<SpecValue>>, Seq<Option<isize>>, StreamView),
                    BfpError,
                >::Ok((view_table(data@), repeats@, stream@)));
                assert(mid.wf());
            }
        }
        let result = BaseStruct::new(effective, data, repeats);
        Ok(result)
    }
}

} // verus!
