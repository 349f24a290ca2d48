//! What counts against a peer, and which of it counts most.
use crate::order::{break_tie, by_number, compare_numbers, or_by, Comparison};
use crate::peer_manager::{
    PeerManagerTrackedPeer, PeerRestriction, PeerRestrictionReason, RestrictionView,
};
use crate::text::{cut_off, decimal, format_number, join3, owned, truncate_with_ellipsis};
use crate::tui::screens::peers::labels::{fits, fits_column};
use vstd::prelude::*;
use vstd::string::StringExecFns;

verus! {

/// Kinds of evidence, the stronger ones of equal measure last.
#[derive(Clone, Copy, Debug, PartialEq, Eq, Structural)]
pub enum EvidenceKind {
    Upload,
    Download,
    Reconnect,
    Manual,
}

/// How much was observed of what is tolerated.
#[derive(Clone, Copy, Debug, PartialEq, Eq, Structural)]
pub struct PeerEvidence {
    pub kind: EvidenceKind,
    pub observed: u64,
    pub threshold: u64,
    pub from_policy: bool,
}

/// The share of what is tolerated, as a fraction; without a threshold it is zero.
pub open spec fn ratio(evidence: PeerEvidence) -> (int, int) {
    if evidence.threshold == 0 {
        (0, 1)
    } else {
        (evidence.observed as int, evidence.threshold as int)
    }
}

/// The share of what is tolerated, as a fraction.
pub fn evidence_ratio_parts(evidence: &PeerEvidence) -> (parts: (u128, u128))
    ensures
        (parts.0 as int, parts.1 as int) == ratio(*evidence),
        parts.0 <= u64::MAX,
        0 < parts.1 <= u64::MAX,
{
    if evidence.threshold == 0 {
        (0, 1)
    } else {
        (evidence.observed as u128, evidence.threshold as u128)
    }
}

/// How two shares compare, exactly.
pub open spec fn by_ratio(a: PeerEvidence, b: PeerEvidence) -> Comparison {
    by_number(ratio(a).0 * ratio(b).1, ratio(b).0 * ratio(a).1)
}

/// How two shares compare, exactly.
pub fn compare_evidence_ratio(left: &PeerEvidence, right: &PeerEvidence) -> (c: Comparison)
    ensures
        c == by_ratio(*left, *right),
{
    let (left_numerator, left_denominator) = evidence_ratio_parts(left);
    let (right_numerator, right_denominator) = evidence_ratio_parts(right);
    assert(left_numerator * right_denominator <= u64::MAX * u64::MAX) by (nonlinear_arith)
        requires
            left_numerator <= u64::MAX,
            right_denominator <= u64::MAX,
    ;
    assert(right_numerator * left_denominator <= u64::MAX * u64::MAX) by (nonlinear_arith)
        requires
            right_numerator <= u64::MAX,
            left_denominator <= u64::MAX,
    ;
    compare_numbers(left_numerator * right_denominator, right_numerator * left_denominator)
}

pub open spec fn kind_rank(kind: EvidenceKind) -> int {
    match kind {
        EvidenceKind::Upload => 0,
        EvidenceKind::Download => 1,
        EvidenceKind::Reconnect => 2,
        EvidenceKind::Manual => 3,
    }
}

fn rank_of_kind(kind: EvidenceKind) -> (rank: u128)
    ensures
        rank == kind_rank(kind),
{
    match kind {
        EvidenceKind::Upload => 0,
        EvidenceKind::Download => 1,
        EvidenceKind::Reconnect => 2,
        EvidenceKind::Manual => 3,
    }
}

pub open spec fn flag_rank(flag: bool) -> int {
    if flag {
        1
    } else {
        0
    }
}

pub fn rank_of_flag(flag: bool) -> (rank: u128)
    ensures
        rank == flag_rank(flag),
{
    if flag {
        1
    } else {
        0
    }
}

/// How two pieces of evidence compare: by share, then by whether a restriction
/// rests on it, then by kind.
pub open spec fn by_weight(a: PeerEvidence, b: PeerEvidence) -> Comparison {
    or_by(
        or_by(by_ratio(a, b), by_number(flag_rank(a.from_policy), flag_rank(b.from_policy))),
        by_number(kind_rank(a.kind), kind_rank(b.kind)),
    )
}

/// How two pieces of evidence compare.
pub fn compare_evidence(left: &PeerEvidence, right: &PeerEvidence) -> (c: Comparison)
    ensures
        c == by_weight(*left, *right),
{
    break_tie(
        break_tie(
            compare_evidence_ratio(left, right),
            compare_numbers(rank_of_flag(left.from_policy), rank_of_flag(right.from_policy)),
        ),
        compare_numbers(rank_of_kind(left.kind), rank_of_kind(right.kind)),
    )
}

/// Comparing shares chains: the order of shares is that of the fractions.
pub proof fn shares_chain(a: PeerEvidence, b: PeerEvidence, c: PeerEvidence)
    ensures
        by_ratio(a, b) == Comparison::Less && by_ratio(b, c) == Comparison::Less ==> by_ratio(a, c)
            == Comparison::Less,
        by_ratio(a, b) == Comparison::Equal ==> by_ratio(b, c) == by_ratio(a, c),
        by_ratio(b, a) == crate::order::reversed(by_ratio(a, b)),
        by_ratio(a, a) == Comparison::Equal,
{
    let (an, ad) = ratio(a);
    let (bn, bd) = ratio(b);
    let (cn, cd) = ratio(c);
    fractions_chain(an, ad, bn, bd, cn, cd);
    fractions_chain(cn, cd, bn, bd, an, ad);
}

proof fn fractions_chain(an: int, ad: int, bn: int, bd: int, cn: int, cd: int)
    requires
        ad > 0,
        bd > 0,
        cd > 0,
    ensures
        an * bd < bn * ad && bn * cd < cn * bd ==> an * cd < cn * ad,
        an * bd == bn * ad && bn * cd < cn * bd ==> an * cd < cn * ad,
        an * bd == bn * ad && bn * cd == cn * bd ==> an * cd == cn * ad,
        an * bd == bn * ad && bn * cd > cn * bd ==> an * cd > cn * ad,
{
    if an * bd < bn * ad && bn * cd < cn * bd {
        assert(an * cd < cn * ad) by (nonlinear_arith)
            requires
                an * bd < bn * ad,
                bn * cd < cn * bd,
                ad > 0,
                bd > 0,
                cd > 0,
        {
            assert((an * bd) * cd < (bn * ad) * cd);
            assert((bn * cd) * ad < (cn * bd) * ad);
            assert((an * cd) * bd < (cn * ad) * bd);
        }
    }
    if an * bd == bn * ad {
        assert((an * cd) * bd == (bn * cd) * ad) by (nonlinear_arith)
            requires
                an * bd == bn * ad,
        ;
        assert((cn * bd) * ad == (cn * ad) * bd) by (nonlinear_arith);
        if bn * cd < cn * bd {
            assert(an * cd < cn * ad) by (nonlinear_arith)
                requires
                    (an * cd) * bd == (bn * cd) * ad,
                    (cn * bd) * ad == (cn * ad) * bd,
                    bn * cd < cn * bd,
                    ad > 0,
                    bd > 0,
            {
                assert((bn * cd) * ad < (cn * bd) * ad);
            }
        } else if bn * cd == cn * bd {
            assert(an * cd == cn * ad) by (nonlinear_arith)
                requires
                    (an * cd) * bd == (bn * cd) * ad,
                    (cn * bd) * ad == (cn * ad) * bd,
                    bn * cd == cn * bd,
                    bd > 0,
            ;
        } else {
            assert(an * cd > cn * ad) by (nonlinear_arith)
                requires
                    (an * cd) * bd == (bn * cd) * ad,
                    (cn * bd) * ad == (cn * ad) * bd,
                    bn * cd > cn * bd,
                    ad > 0,
                    bd > 0,
            {
                assert((bn * cd) * ad > (cn * bd) * ad);
            }
        }
    }
}

/// The three measures that are taken of a peer in a torrent.
pub open spec fn measures(peer: PeerManagerTrackedPeer) -> Seq<PeerEvidence> {
    seq![
        PeerEvidence {
            kind: EvidenceKind::Upload,
            observed: peer.uploaded_evidence_bytes,
            threshold: peer.transfer_threshold_bytes,
            from_policy: false,
        },
        PeerEvidence {
            kind: EvidenceKind::Download,
            observed: peer.downloaded_evidence_bytes,
            threshold: peer.transfer_threshold_bytes,
            from_policy: false,
        },
        PeerEvidence {
            kind: EvidenceKind::Reconnect,
            observed: peer.reconnect_count as u64,
            threshold: peer.reconnect_limit as u64,
            from_policy: false,
        },
    ]
}

/// The three measures that are taken of a peer in a torrent.
pub fn tracked_peer_evidence(peer: &PeerManagerTrackedPeer) -> (evidence: Vec<PeerEvidence>)
    ensures
        evidence@ == measures(*peer),
{
    let mut evidence: Vec<PeerEvidence> = Vec::new();
    evidence.push(
        PeerEvidence {
            kind: EvidenceKind::Upload,
            observed: peer.uploaded_evidence_bytes,
            threshold: peer.transfer_threshold_bytes,
            from_policy: false,
        },
    );
    evidence.push(
        PeerEvidence {
            kind: EvidenceKind::Download,
            observed: peer.downloaded_evidence_bytes,
            threshold: peer.transfer_threshold_bytes,
            from_policy: false,
        },
    );
    evidence.push(
        PeerEvidence {
            kind: EvidenceKind::Reconnect,
            observed: peer.reconnect_count as u64,
            threshold: peer.reconnect_limit as u64,
            from_policy: false,
        },
    );
    assert(evidence@ =~= measures(*peer));
    evidence
}

/// The evidence that a restriction rests on.
pub open spec fn policy_evidence(reason: PeerRestrictionReason) -> PeerEvidence {
    match reason {
        PeerRestrictionReason::ExcessiveUpload { uploaded_bytes, threshold_bytes } => PeerEvidence {
            kind: EvidenceKind::Upload,
            observed: uploaded_bytes,
            threshold: threshold_bytes,
            from_policy: true,
        },
        PeerRestrictionReason::ExcessiveDownload { downloaded_bytes, threshold_bytes } =>
        PeerEvidence {
            kind: EvidenceKind::Download,
            observed: downloaded_bytes,
            threshold: threshold_bytes,
            from_policy: true,
        },
        PeerRestrictionReason::ReconnectChurn { reconnects, threshold, window_secs } =>
        PeerEvidence {
            kind: EvidenceKind::Reconnect,
            observed: reconnects as u64,
            threshold: threshold as u64,
            from_policy: true,
        },
        PeerRestrictionReason::Manual => PeerEvidence {
            kind: EvidenceKind::Manual,
            observed: 1,
            threshold: 1,
            from_policy: true,
        },
    }
}

/// The evidence that a restriction rests on.
pub fn restriction_evidence(reason: &PeerRestrictionReason) -> (evidence: PeerEvidence)
    ensures
        evidence == policy_evidence(*reason),
{
    match *reason {
        PeerRestrictionReason::ExcessiveUpload { uploaded_bytes, threshold_bytes } => PeerEvidence {
            kind: EvidenceKind::Upload,
            observed: uploaded_bytes,
            threshold: threshold_bytes,
            from_policy: true,
        },
        PeerRestrictionReason::ExcessiveDownload { downloaded_bytes, threshold_bytes } =>
        PeerEvidence {
            kind: EvidenceKind::Download,
            observed: downloaded_bytes,
            threshold: threshold_bytes,
            from_policy: true,
        },
        PeerRestrictionReason::ReconnectChurn { reconnects, threshold, window_secs: _ } =>
        PeerEvidence {
            kind: EvidenceKind::Reconnect,
            observed: reconnects as u64,
            threshold: threshold as u64,
            from_policy: true,
        },
        PeerRestrictionReason::Manual => PeerEvidence {
            kind: EvidenceKind::Manual,
            observed: 1,
            threshold: 1,
            from_policy: true,
        },
    }
}

/// No evidence at all.
pub open spec fn nothing_observed() -> PeerEvidence {
    PeerEvidence { kind: EvidenceKind::Reconnect, observed: 0, threshold: 0, from_policy: false }
}

/// The strongest of some pieces of evidence; of several equal ones the last.
pub open spec fn strongest(list: Seq<PeerEvidence>) -> PeerEvidence
    decreases list.len(),
{
    if list.len() == 0 {
        nothing_observed()
    } else if list.len() == 1 {
        list[0]
    } else {
        let before = strongest(list.drop_last());
        if by_weight(before, list.last()) == Comparison::Greater {
            before
        } else {
            list.last()
        }
    }
}

/// The strongest of some pieces of evidence.
pub fn strongest_evidence(list: &Vec<PeerEvidence>) -> (best: PeerEvidence)
    ensures
        best == strongest(list@),
{
    if list.len() == 0 {
        return PeerEvidence {
            kind: EvidenceKind::Reconnect,
            observed: 0,
            threshold: 0,
            from_policy: false,
        };
    }
    let mut best = list[0];
    let mut i: usize = 1;
    assert(list@.take(1)[0] == list@[0]);
    while i < list.len()
        invariant
            1 <= i <= list@.len(),
            best == strongest(list@.take(i as int)),
        decreases list@.len() - i,
    {
        assert(list@.take(i + 1).drop_last() =~= list@.take(i as int));
        if compare_evidence(&best, &list[i]) != Comparison::Greater {
            best = list[i];
        }
        i = i + 1;
    }
    assert(list@.take(i as int) =~= list@);
    best
}

/// The measures taken of a peer in some torrents.
pub open spec fn all_measures(
    peers: Seq<PeerManagerTrackedPeer>,
    indices: Seq<usize>,
) -> Seq<PeerEvidence>
    decreases indices.len(),
{
    if indices.len() == 0 {
        Seq::empty()
    } else {
        all_measures(peers, indices.drop_last()) + measures(peers[indices.last() as int])
    }
}

/// All that counts against a peer: what was measured, and what it is restricted
/// for.
pub open spec fn all_evidence(
    peers: Seq<PeerManagerTrackedPeer>,
    indices: Seq<usize>,
    restriction: Option<RestrictionView>,
) -> Seq<PeerEvidence> {
    match restriction {
        Some(restriction) => all_measures(peers, indices).push(policy_evidence(restriction.reason)),
        None => all_measures(peers, indices),
    }
}

/// The strongest evidence against a peer.
pub fn strongest_peer_evidence(
    peers: &Vec<PeerManagerTrackedPeer>,
    indices: &Vec<usize>,
    restriction: &Option<PeerRestriction>,
) -> (best: PeerEvidence)
    requires
        forall|k: int| 0 <= k < indices@.len() ==> #[trigger] indices@[k] < peers@.len(),
    ensures
        best == strongest(
            all_evidence(
                peers@,
                indices@,
                match *restriction {
                    Some(r) => Some(r@),
                    None => None,
                },
            ),
        ),
{
    let mut list: Vec<PeerEvidence> = Vec::new();
    let mut k: usize = 0;
    assert(indices@.take(0) =~= Seq::<usize>::empty());
    while k < indices.len()
        invariant
            k <= indices@.len(),
            forall|k: int| 0 <= k < indices@.len() ==> #[trigger] indices@[k] < peers@.len(),
            list@ == all_measures(peers@, indices@.take(k as int)),
        decreases indices@.len() - k,
    {
        assert(indices@.take(k + 1).drop_last() =~= indices@.take(k as int));
        let mut three = tracked_peer_evidence(&peers[indices[k]]);
        let ghost was = list@;
        let ghost more = three@;
        list.append(&mut three);
        assert(list@ =~= was + more);
        k = k + 1;
    }
    assert(indices@.take(k as int) =~= indices@);
    if let Some(restriction) = restriction {
        list.push(restriction_evidence(&restriction.reason));
    }
    strongest_evidence(&list)
}

/// No piece of evidence outweighs the strongest one.
pub proof fn strongest_is_not_outweighed(list: Seq<PeerEvidence>, k: int)
    requires
        0 <= k < list.len(),
    ensures
        by_weight(strongest(list), list[k]) != Comparison::Less,
    decreases list.len(),
{
    if list.len() == 1 {
        weights_chain(list[0], list[0], list[0]);
    } else {
        let before = strongest(list.drop_last());
        let last = list.last();
        weights_chain(last, last, last);
        if k < list.len() - 1 {
            strongest_is_not_outweighed(list.drop_last(), k);
            assert(list.drop_last()[k] == list[k]);
            weights_chain(last, before, list[k]);
            weights_chain(before, last, list[k]);
            weights_chain(last, list[k], before);
            weights_chain(list[k], before, last);
            weights_chain(before, list[k], last);
            weights_chain(list[k], last, before);
        }
    }
}

/// Comparing by weight chains.
pub proof fn weights_chain(a: PeerEvidence, b: PeerEvidence, c: PeerEvidence)
    ensures
        by_weight(a, b) == Comparison::Less && by_weight(b, c) == Comparison::Less ==> by_weight(
            a,
            c,
        ) == Comparison::Less,
        by_weight(a, b) == Comparison::Equal ==> by_weight(b, c) == by_weight(a, c),
        by_weight(b, a) == crate::order::reversed(by_weight(a, b)),
        by_weight(a, a) == Comparison::Equal,
{
    shares_chain(a, b, c);
    shares_chain(b, c, a);
    shares_chain(c, a, b);
    shares_chain(b, a, c);
    shares_chain(a, c, b);
    shares_chain(c, b, a);
}

// -------------------------------------------------------------- the label

/// The columns that a label of evidence may take up.
pub const EVIDENCE_CONTENT_WIDTH: u16 = 17;

/// Parts of a label that hold rounded quantities: the share in per cent, the same
/// with a unit of magnitude, and the two numbers with units of magnitude.
pub struct RoundedEvidence {
    pub percent: String,
    pub compact_percent: String,
    pub compact_observed: String,
    pub compact_threshold: String,
}

/// The full label of a piece of evidence.
pub open spec fn full_label(evidence: PeerEvidence, percent: Seq<char>) -> Seq<char> {
    match evidence.kind {
        EvidenceKind::Upload => "UL "@ + percent + "%"@,
        EvidenceKind::Download => "DL "@ + percent + "%"@,
        EvidenceKind::Reconnect => "Reconnect "@ + decimal(evidence.observed as nat) + "/"@
            + decimal(evidence.threshold as nat),
        EvidenceKind::Manual => "MANUAL"@,
    }
}

/// The short label of a piece of evidence.
pub open spec fn short_label(
    evidence: PeerEvidence,
    percent: Seq<char>,
    observed: Seq<char>,
    threshold: Seq<char>,
) -> Seq<char> {
    match evidence.kind {
        EvidenceKind::Upload => "UL "@ + percent + "%"@,
        EvidenceKind::Download => "DL "@ + percent + "%"@,
        EvidenceKind::Reconnect => "R "@ + observed + "/"@ + threshold,
        EvidenceKind::Manual => "MANUAL"@,
    }
}

impl PeerEvidence {
    /// The label in the evidence column: the full one if it fits, and else the
    /// short one, cut off.
    pub fn compact_label(&self, rounded: &RoundedEvidence) -> (label: String)
        ensures
            label@ == ({
                let full = full_label(*self, rounded.percent@);
                if fits(full, EVIDENCE_CONTENT_WIDTH as int) {
                    full
                } else {
                    cut_off(
                        short_label(
                            *self,
                            rounded.compact_percent@,
                            rounded.compact_observed@,
                            rounded.compact_threshold@,
                        ),
                        EVIDENCE_CONTENT_WIDTH as int,
                    )
                }
            }),
    {
        let full = match self.kind {
            EvidenceKind::Upload => join3("UL ", rounded.percent.as_str(), "%"),
            EvidenceKind::Download => join3("DL ", rounded.percent.as_str(), "%"),
            EvidenceKind::Reconnect => {
                let mut label = join3("Reconnect ", format_number(self.observed).as_str(), "/");
                label.append(format_number(self.threshold).as_str());
                label
            },
            EvidenceKind::Manual => owned("MANUAL"),
        };
        if fits_column(full.as_str(), EVIDENCE_CONTENT_WIDTH) {
            return full;
        }
        let short = match self.kind {
            EvidenceKind::Upload => join3("UL ", rounded.compact_percent.as_str(), "%"),
            EvidenceKind::Download => join3("DL ", rounded.compact_percent.as_str(), "%"),
            EvidenceKind::Reconnect => {
                let mut label = join3("R ", rounded.compact_observed.as_str(), "/");
                label.append(rounded.compact_threshold.as_str());
                label
            },
            EvidenceKind::Manual => owned("MANUAL"),
        };
        truncate_with_ellipsis(short.as_str(), EVIDENCE_CONTENT_WIDTH as usize)
    }
}

/// A label of evidence never takes more columns than there are.
pub proof fn evidence_labels_fit(text: Seq<char>)
    ensures
        cut_off(text, EVIDENCE_CONTENT_WIDTH as int).len() <= EVIDENCE_CONTENT_WIDTH,
{
    reveal_strlit("...");
}

} // verus!
