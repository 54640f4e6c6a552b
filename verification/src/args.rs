//! Framing of serialized call arguments.
//!
//! Data needed later in a chain is threaded forward inside the serialized
//! arguments of the continuation call scheduled earlier, since no shared
//! mutable workflow record exists to carry it. The frames are small JSON
//! objects over UTF-8 names; embedded names have `"` and `\` escaped.

use vstd::prelude::*;

verus! {

use crate::account::AccountId;
use crate::decode::dec_repr;
use crate::decode::encode;

/// The escaped form of one byte inside a JSON string: `"` and `\` get a
/// backslash prefix, every other byte passes through.
pub open spec fn json_escape_byte(b: u8) -> Seq<u8> {
    if b == 0x22 || b == 0x5c {
        seq![0x5c, b]
    } else {
        seq![b]
    }
}

/// The escaped form of a whole name.
pub open spec fn json_escape(s: Seq<u8>) -> Seq<u8>
    decreases s.len(),
{
    if s.len() == 0 {
        Seq::empty()
    } else {
        json_escape(s.drop_last()) + json_escape_byte(s.last())
    }
}

/// The frame of an empty argument object: `{}`.
pub open spec fn args_empty() -> Seq<u8> {
    seq![0x7b, 0x7d]
}

/// The bytes of the name `account`.
pub open spec fn key_account() -> Seq<u8> {
    seq![0x61, 0x63, 0x63, 0x6f, 0x75, 0x6e, 0x74]
}

/// The bytes of the name `token_account`.
pub open spec fn key_token_account() -> Seq<u8> {
    seq![0x74, 0x6f, 0x6b, 0x65, 0x6e, 0x5f, 0x61, 0x63, 0x63, 0x6f, 0x75, 0x6e, 0x74]
}

/// The bytes of the name `new_owner_id`.
pub open spec fn key_new_owner_id() -> Seq<u8> {
    seq![0x6e, 0x65, 0x77, 0x5f, 0x6f, 0x77, 0x6e, 0x65, 0x72, 0x5f, 0x69, 0x64]
}

/// The bytes of the name `amount`.
pub open spec fn key_amount() -> Seq<u8> {
    seq![0x61, 0x6d, 0x6f, 0x75, 0x6e, 0x74]
}

/// The opening of a one-field object whose value is a string: `{"key":"`.
pub open spec fn obj_open_key(key: Seq<u8>) -> Seq<u8> {
    seq![0x7b, 0x22] + key + seq![0x22, 0x3a, 0x22]
}

/// The closing of a string value and the object: `"}`.
pub open spec fn obj_close() -> Seq<u8> {
    seq![0x22, 0x7d]
}

/// The separator between a string value and a following string field:
/// `","key":"`.
pub open spec fn obj_next_key(key: Seq<u8>) -> Seq<u8> {
    seq![0x22, 0x2c, 0x22] + key + seq![0x22, 0x3a, 0x22]
}

/// The frame `{"account":"<name>"}`, with the name escaped.
pub open spec fn args_account(id: Seq<u8>) -> Seq<u8> {
    obj_open_key(key_account()) + json_escape(id) + obj_close()
}

/// The frame `{"token_account":"<name>"}`, with the name escaped.
pub open spec fn args_token_account(id: Seq<u8>) -> Seq<u8> {
    obj_open_key(key_token_account()) + json_escape(id) + obj_close()
}

/// The frame `{"new_owner_id":"<name>","amount":"<digits>"}`, with the
/// name escaped and the amount in canonical decimal.
pub open spec fn args_transfer(recipient: Seq<u8>, amount: nat) -> Seq<u8> {
    obj_open_key(key_new_owner_id()) + json_escape(recipient) + obj_next_key(key_amount())
        + dec_repr(amount) + obj_close()
}

/// Appends the escaped form of `id` to `out`.
fn push_escaped(out: &mut Vec<u8>, id: &AccountId)
    ensures
        final(out)@ == old(out)@ + json_escape(id@),
{
    let bytes = id.bytes();
    let n = bytes.len();
    let mut i: usize = 0;
    proof {
        assert(out@ + json_escape(id@.take(0)) =~= out@);
    }
    while i < n
        invariant
            0 <= i <= n,
            n == id@.len(),
            bytes@ == id@,
            out@ == old(out)@ + json_escape(id@.take(i as int)),
        decreases n - i,
    {
        let b = bytes[i];
        proof {
            assert(id@.take(i as int + 1).drop_last() =~= id@.take(i as int));
            assert(id@.take(i as int + 1).last() == b);
        }
        if b == 0x22 || b == 0x5c {
            out.push(0x5c);
            out.push(b);
        } else {
            out.push(b);
        }
        proof {
            assert(out@ =~= old(out)@ + json_escape(id@.take(i as int + 1)));
        }
        i = i + 1;
    }
    proof {
        assert(id@.take(n as int) =~= id@);
    }
}

/// Builds the empty argument frame `{}`.
pub fn empty_args() -> (r: Vec<u8>)
    ensures
        r@ == args_empty(),
{
    let mut v: Vec<u8> = Vec::new();
    v.push(0x7b);
    v.push(0x7d);
    proof {
        assert(v@ =~= args_empty());
    }
    v
}

/// Builds the frame `{"account":"<name>"}` for asking the counter service
/// for its number.
pub fn get_num_args(account: &AccountId) -> (r: Vec<u8>)
    ensures
        r@ == args_account(account@),
{
    let mut v: Vec<u8> = Vec::new();
    v.push(0x7b);
    v.push(0x22);
    v.push(0x61);
    v.push(0x63);
    v.push(0x63);
    v.push(0x6f);
    v.push(0x75);
    v.push(0x6e);
    v.push(0x74);
    v.push(0x22);
    v.push(0x3a);
    v.push(0x22);
    proof {
        assert(v@ =~= obj_open_key(key_account()));
    }
    push_escaped(&mut v, account);
    v.push(0x22);
    v.push(0x7d);
    proof {
        assert(v@ =~= args_account(account@));
    }
    v
}

/// Builds the frame `{"token_account":"<name>"}` that threads the
/// transfer-service identity forward to the continuation.
pub fn post_increment_args(token_account: &AccountId) -> (r: Vec<u8>)
    ensures
        r@ == args_token_account(token_account@),
{
    let mut v: Vec<u8> = Vec::new();
    v.push(0x7b);
    v.push(0x22);
    v.push(0x74);
    v.push(0x6f);
    v.push(0x6b);
    v.push(0x65);
    v.push(0x6e);
    v.push(0x5f);
    v.push(0x61);
    v.push(0x63);
    v.push(0x63);
    v.push(0x6f);
    v.push(0x75);
    v.push(0x6e);
    v.push(0x74);
    v.push(0x22);
    v.push(0x3a);
    v.push(0x22);
    proof {
        assert(v@ =~= obj_open_key(key_token_account()));
    }
    push_escaped(&mut v, token_account);
    v.push(0x22);
    v.push(0x7d);
    proof {
        assert(v@ =~= args_token_account(token_account@));
    }
    v
}

/// Builds the frame `{"new_owner_id":"<name>","amount":"<digits>"}` for
/// the transfer service.
pub fn transfer_args(recipient: &AccountId, amount: u128) -> (r: Vec<u8>)
    ensures
        r@ == args_transfer(recipient@, amount as nat),
{
    let mut v: Vec<u8> = Vec::new();
    v.push(0x7b);
    v.push(0x22);
    v.push(0x6e);
    v.push(0x65);
    v.push(0x77);
    v.push(0x5f);
    v.push(0x6f);
    v.push(0x77);
    v.push(0x6e);
    v.push(0x65);
    v.push(0x72);
    v.push(0x5f);
    v.push(0x69);
    v.push(0x64);
    v.push(0x22);
    v.push(0x3a);
    v.push(0x22);
    proof {
        assert(v@ =~= obj_open_key(key_new_owner_id()));
    }
    push_escaped(&mut v, recipient);
    v.push(0x22);
    v.push(0x2c);
    v.push(0x22);
    v.push(0x61);
    v.push(0x6d);
    v.push(0x6f);
    v.push(0x75);
    v.push(0x6e);
    v.push(0x74);
    v.push(0x22);
    v.push(0x3a);
    v.push(0x22);
    proof {
        assert(v@ =~= obj_open_key(key_new_owner_id()) + json_escape(recipient@) + obj_next_key(
            key_amount(),
        ));
    }
    let mut digits = encode(amount);
    v.append(&mut digits);
    v.push(0x22);
    v.push(0x7d);
    proof {
        assert(v@ =~= args_transfer(recipient@, amount as nat));
    }
    v
}

} // verus!
