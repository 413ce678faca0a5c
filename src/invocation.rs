//! Request frames: a procedure name, a request handle and typed parameters.
use vstd::prelude::*;
use vstd::utf8::*;
use vstd::string::*;
use bytebuffer::ByteBuffer;
use crate::wire::{
    be_bytes, buffer_appends, buffer_bytes, buffer_into_vec, lemma_be_bytes_len, new_buffer, put_bytes, put_i16,
    put_i64, put_string, put_u32, put_u8, string_field,
};

verus! {

/// Wire type code of a string parameter.
pub const STRING_TYPE: u8 = 9;

/// Wire type code of a binary parameter.
pub const VARBINARY_TYPE: u8 = 25;

/// One parameter of a procedure call.
#[derive(Debug, Clone)]
pub enum Param {
    Str(String),
    Bytes(Vec<u8>),
}

/// The value a parameter carries.
pub enum ParamView {
    Str(Seq<char>),
    Bytes(Seq<u8>),
}

impl View for Param {
    type V = ParamView;

    open spec fn view(&self) -> ParamView {
        match self {
            Param::Str(s) => ParamView::Str(s@),
            Param::Bytes(b) => ParamView::Bytes(b@),
        }
    }
}

/// The values of a list of parameters.
pub open spec fn params_view(ps: Seq<Param>) -> Seq<ParamView> {
    ps.map_values(|p: Param| p@)
}

/// A parameter on the wire: its type code, then its length-prefixed bytes.
pub open spec fn param_bytes(p: ParamView) -> Seq<u8> {
    match p {
        ParamView::Str(s) => seq![STRING_TYPE] + string_field(encode_utf8(s)),
        ParamView::Bytes(b) => seq![VARBINARY_TYPE] + string_field(b),
    }
}

/// The parameters one after the other.
pub open spec fn params_bytes(ps: Seq<ParamView>) -> Seq<u8>
    decreases ps.len(),
{
    if ps.len() == 0 {
        Seq::empty()
    } else {
        params_bytes(ps.drop_last()) + param_bytes(ps.last())
    }
}

/// A request frame without its length prefix: version byte 0, procedure
/// name, handle, parameter count and parameters.
pub open spec fn invocation_body(handle: i64, name: Seq<u8>, ps: Seq<ParamView>) -> Seq<u8> {
    seq![0u8] + string_field(name) + be_bytes(handle as int, 8) + be_bytes(ps.len() as int, 2)
        + params_bytes(ps)
}

/// A request frame: the body's length as four big-endian bytes, then the body.
pub open spec fn invocation_frame(handle: i64, name: Seq<u8>, ps: Seq<ParamView>) -> Seq<u8> {
    be_bytes(invocation_body(handle, name, ps).len() as int, 4) + invocation_body(handle, name, ps)
}

/// The frame is small enough for its length prefix and its parameter count.
pub open spec fn invocation_fits(name: Seq<u8>, ps: Seq<ParamView>) -> bool {
    &&& ps.len() <= i16::MAX
    &&& 19 + name.len() + params_bytes(ps).len() <= i32::MAX
}

/// One parameter on the wire, and its length.
pub proof fn lemma_params_one(p: ParamView)
    ensures
        params_bytes(seq![p]) == param_bytes(p),
        param_bytes(p).len() == 5 + match p {
            ParamView::Str(s) => encode_utf8(s).len(),
            ParamView::Bytes(b) => b.len(),
        },
{
    assert(seq![p].drop_last() =~= Seq::<ParamView>::empty());
    assert(params_bytes(Seq::<ParamView>::empty()) == Seq::<u8>::empty());
    assert(params_bytes(seq![p]) =~= param_bytes(p));
    match p {
        ParamView::Str(s) => lemma_be_bytes_len(encode_utf8(s).len() as int, 4),
        ParamView::Bytes(b) => lemma_be_bytes_len(b.len() as int, 4),
    }
}

proof fn lemma_params_prefix(ps: Seq<ParamView>, i: int)
    requires
        0 <= i < ps.len(),
    ensures
        params_bytes(ps.take(i + 1)) == params_bytes(ps.take(i)) + param_bytes(ps[i]),
        params_bytes(ps.take(i + 1)).len() <= params_bytes(ps).len(),
    decreases ps.len(),
{
    assert(ps.take(i + 1).drop_last() =~= ps.take(i));
    if i + 1 < ps.len() {
        lemma_params_prefix(ps.drop_last(), i);
        assert(ps.drop_last().take(i + 1) =~= ps.take(i + 1));
        assert(ps.drop_last().take(i) =~= ps.take(i));
    } else {
        assert(ps.take(i + 1) =~= ps);
    }
}

/// Encodes a call of procedure `name` under `handle` with the given parameters.
pub fn encode_invocation(handle: i64, name: &str, params: &Vec<Param>) -> (r: Vec<u8>)
    requires
        invocation_fits(name.spec_bytes(), params_view(params@)),
    ensures
        r@ == invocation_frame(handle, name.spec_bytes(), params_view(params@)),
        r@.len() <= i32::MAX,
{
    let ghost ps = params_view(params@);
    let mut b: ByteBuffer = new_buffer();
    put_u8(&mut b, 0);
    put_string(&mut b, name);
    put_i64(&mut b, handle);
    put_i16(&mut b, params.len() as i16);
    let ghost head = buffer_bytes(b);
    proof {
        assert(ps.take(0) =~= Seq::<ParamView>::empty());
        assert(head + params_bytes(ps.take(0)) =~= head);
        lemma_be_bytes_len(name.spec_bytes().len() as int, 4);
        lemma_be_bytes_len(handle as int, 8);
        lemma_be_bytes_len(ps.len() as int, 2);
    }
    let mut i: usize = 0;
    while i < params.len()
        invariant
            i <= params@.len(),
            ps == params_view(params@),
            invocation_fits(name.spec_bytes(), ps),
            head.len() == 15 + name.spec_bytes().len(),
            buffer_bytes(b) == head + params_bytes(ps.take(i as int)),
            buffer_appends(b),
        decreases params@.len() - i,
    {
        proof {
            lemma_params_prefix(ps, i as int);
        }
        match &params[i] {
            Param::Str(s) => {
                put_u8(&mut b, STRING_TYPE);
                put_string(&mut b, s.as_str());
            },
            Param::Bytes(v) => {
                put_u8(&mut b, VARBINARY_TYPE);
                put_u32(&mut b, v.len() as u32);
                put_bytes(&mut b, v.as_slice());
            },
        }
        proof {
            lemma_be_bytes_len(0, 4);
            assert(buffer_bytes(b) =~= head + params_bytes(ps.take(i + 1)));
        }
        i = i + 1;
    }
    proof {
        assert(ps.take(ps.len() as int) =~= ps);
        assert(head =~= invocation_body(handle, name.spec_bytes(), ps).subrange(0, head.len() as int));
    }
    let body = buffer_into_vec(b);
    assert(body@ =~= invocation_body(handle, name.spec_bytes(), ps));
    let mut f: ByteBuffer = new_buffer();
    put_u32(&mut f, body.len() as u32);
    put_bytes(&mut f, body.as_slice());
    let r = buffer_into_vec(f);
    proof {
        lemma_be_bytes_len(body@.len() as int, 4);
        assert(r@ =~= invocation_frame(handle, name.spec_bytes(), ps));
    }
    r
}

/// Whether a call of `name` with these parameters fits in one frame.
pub fn fits(name: &str, params: &Vec<Param>) -> (r: bool)
    ensures
        r == invocation_fits(name.spec_bytes(), params_view(params@)),
{
    let ghost ps = params_view(params@);
    if params.len() > 32767 {
        return false;
    }
    let name_len: usize = name.as_bytes().len();
    if name_len > 2147483647 - 19 {
        return false;
    }
    let mut total: u64 = 19 + name_len as u64;
    proof {
        assert(ps.take(0) =~= Seq::<ParamView>::empty());
        assert(params_bytes(Seq::<ParamView>::empty()) =~= Seq::<u8>::empty());
    }
    let mut i: usize = 0;
    while i < params.len()
        invariant
            i <= params@.len(),
            ps == params_view(params@),
            params@.len() <= 32767,
            total == 19 + name.spec_bytes().len() + params_bytes(ps.take(i as int)).len(),
            total <= i32::MAX,
        decreases params@.len() - i,
    {
        proof {
            lemma_params_prefix(ps, i as int);
            lemma_params_one(ps[i as int]);
            assert(ps[i as int] == params@[i as int]@);
        }
        let len: usize = match &params[i] {
            Param::Str(s) => s.as_str().as_bytes().len(),
            Param::Bytes(v) => v.len(),
        };
        if len > 2147483647 {
            return false;
        }
        let next: u64 = total + 5 + len as u64;
        if next > 2147483647 {
            return false;
        }
        total = next;
        i = i + 1;
    }
    proof {
        assert(ps.take(ps.len() as int) =~= ps);
    }
    true
}

} // verus!
