use vstd::prelude::*;

verus! {

/// What a connection is, as its client greeting shows.
#[derive(Debug, Clone, Copy, PartialEq, Eq, Structural)]
pub enum ConnectionClassification {
    /// A certificate-issuance validation handshake (TLS-ALPN-01).
    ValidationProbe,
    /// An ordinary client of the service.
    ApplicationTraffic,
}

/// The ALPN identifier `acme-tls/1` of validation handshakes.
pub open spec fn acme_tls_alpn() -> Seq<u8> {
    seq![97u8, 99u8, 109u8, 101u8, 45u8, 116u8, 108u8, 115u8, 47u8, 49u8]
}

/// A greeting is a validation probe when the protocols it offers through
/// ALPN (empty where it offers none) are exactly `acme-tls/1`.
pub open spec fn classification(offered: Seq<Seq<u8>>) -> ConnectionClassification {
    if offered == seq![acme_tls_alpn()] {
        ConnectionClassification::ValidationProbe
    } else {
        ConnectionClassification::ApplicationTraffic
    }
}

fn is_acme_tls_alpn(p: &Vec<u8>) -> (r: bool)
    ensures
        r == (p@ == acme_tls_alpn()),
{
    let expected: Vec<u8> = vec![97u8, 99u8, 109u8, 101u8, 45u8, 116u8, 108u8, 115u8, 47u8, 49u8];
    assert(expected@ =~= acme_tls_alpn());
    if p.len() != expected.len() {
        assert(p@.len() != acme_tls_alpn().len());
        return false;
    }
    let mut i: usize = 0;
    while i < p.len()
        invariant
            p@.len() == expected@.len(),
            expected@ == acme_tls_alpn(),
            0 <= i <= p@.len(),
            forall|k: int| 0 <= k < i ==> p@[k] == expected@[k],
        decreases p@.len() - i,
    {
        if p[i] != expected[i] {
            return false;
        }
        i = i + 1;
    }
    assert(p@ =~= expected@);
    true
}

/// Classifies a connection from the ALPN protocols of its client greeting,
/// read before any handshake response is sent.
pub fn classify(offered: &Vec<Vec<u8>>) -> (r: ConnectionClassification)
    ensures
        r == classification(offered.deep_view()),
{
    if offered.len() == 1 && is_acme_tls_alpn(&offered[0]) {
        assert(offered.deep_view()[0] == offered@[0]@);
        assert(offered.deep_view() =~= seq![acme_tls_alpn()]);
        ConnectionClassification::ValidationProbe
    } else {
        assert(seq![acme_tls_alpn()].len() == 1);
        if offered.len() == 1 {
            assert(offered.deep_view()[0] == offered@[0]@);
            assert(offered.deep_view()[0] != seq![acme_tls_alpn()][0]);
        }
        ConnectionClassification::ApplicationTraffic
    }
}

/// Classification is a function of the greeting alone: replaying the same
/// greeting gives the same classification.
pub proof fn replayed_greeting_same_classification(first: Seq<Seq<u8>>, replay: Seq<Seq<u8>>)
    requires
        first == replay,
    ensures
        classification(first) == classification(replay),
{
}

} // verus!
