use vstd::prelude::*;

verus! {

/// The fixed message that the UDP streamer sends: the fourteen ASCII bytes of
/// `{ "test": 15 }`.
pub open spec fn payload_bytes() -> Seq<u8> {
    seq![
        0x7bu8, // {
        0x20u8, // space
        0x22u8, // "
        0x74u8, // t
        0x65u8, // e
        0x73u8, // s
        0x74u8, // t
        0x22u8, // "
        0x3au8, // :
        0x20u8, // space
        0x31u8, // 1
        0x35u8, // 5
        0x20u8, // space
        0x7du8, // }
    ]
}

/// Builds the fixed message as a byte vector.
pub fn fixed_payload() -> (r: Vec<u8>)
    ensures
        r@ == payload_bytes(),
{
    let mut v: Vec<u8> = Vec::new();
    v.push(0x7b);
    v.push(0x20);
    v.push(0x22);
    v.push(0x74);
    v.push(0x65);
    v.push(0x73);
    v.push(0x74);
    v.push(0x22);
    v.push(0x3a);
    v.push(0x20);
    v.push(0x31);
    v.push(0x35);
    v.push(0x20);
    v.push(0x7d);
    proof {
        assert(v@ =~= payload_bytes());
    }
    v
}

} // verus!
