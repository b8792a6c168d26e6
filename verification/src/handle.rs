// SPDX-License-Identifier: MIT

//! The flags of the header of a request.

use vstd::prelude::*;

verus! {

/// The message is a request.
pub const NLM_F_REQUEST: u16 = 0x0001;

/// The request asks for an acknowledgement.
pub const NLM_F_ACK: u16 = 0x0004;

/// The request asks for a list of all that match, which may come in several
/// messages.
pub const NLM_F_DUMP: u16 = 0x0300;

/// The flags of a request that wants one answer.
pub const NL80211_FLAGS_REQUEST: u16 = 0x0001;

/// The flags of a request that wants an acknowledgement.
pub const NL80211_FLAGS_REQUEST_ACK: u16 = 0x0005;

/// The flags of a request that wants a list.
pub const NL80211_FLAGS_REQUEST_DUMP: u16 = 0x0301;

/// The named sets of flags are made of the single flags.
pub proof fn lemma_header_flags()
    ensures
        NL80211_FLAGS_REQUEST == NLM_F_REQUEST,
        NL80211_FLAGS_REQUEST_ACK == NLM_F_REQUEST | NLM_F_ACK,
        NL80211_FLAGS_REQUEST_DUMP == NLM_F_REQUEST | NLM_F_DUMP,
{
    assert(0x0005u16 == 0x0001u16 | 0x0004u16) by (bit_vector);
    assert(0x0301u16 == 0x0001u16 | 0x0300u16) by (bit_vector);
}

/// The flags of the header of a request: a request for a list of all asks for
/// a dump, another one for one answer.
pub fn nl80211_header_flags(dump: bool) -> (flags: u16)
    ensures
        flags == if dump {
            NLM_F_REQUEST | NLM_F_DUMP
        } else {
            NLM_F_REQUEST
        },
{
    proof {
        lemma_header_flags();
    }
    if dump {
        NL80211_FLAGS_REQUEST_DUMP
    } else {
        NL80211_FLAGS_REQUEST
    }
}

} // verus!
