//! The pure decision logic of the NFC poller: extracting the card
//! identifier from the reader's target-listing response, and the cool-down
//! window that keeps one physical tap from raising a burst of events. The
//! bus request with its bounded timeout stays outside; it hands this module
//! the raw response bytes.

use vstd::prelude::*;

verus! {

/// The identifier carried by a target-listing response: the response names
/// at least one target, announces a positive identifier length in its
/// sixth byte, and is long enough to hold the identifier that follows.
/// Anything shorter or malformed is no detection.
pub open spec fn parsed_uid(response: Seq<u8>) -> Option<Seq<u8>> {
    if response.len() >= 6 && response[0] > 0 {
        let uid_len = response[5] as int;
        if uid_len > 0 && response.len() >= 6 + uid_len {
            Some(response.subrange(6, 6 + uid_len))
        } else {
            None
        }
    } else {
        None
    }
}

/// Extract the card identifier from a raw target-listing response, if the
/// response is well formed.
pub fn parse_target_response(response: &Vec<u8>) -> (uid: Option<Vec<u8>>)
    ensures
        uid matches Some(u) ==> parsed_uid(response@) == Some(u@),
        uid is None ==> parsed_uid(response@) is None,
{
    if response.len() < 6 {
        return None;
    }
    if response[0] == 0 {
        return None;
    }
    let uid_len: usize = response[5] as usize;
    if uid_len == 0 || response.len() < 6 + uid_len {
        return None;
    }
    let mut uid: Vec<u8> = Vec::new();
    let mut i: usize = 0;
    while i < uid_len
        invariant
            i <= uid_len,
            uid_len <= 255,
            response@.len() >= 6 + uid_len,
            uid@.len() == i,
            forall|j: int| 0 <= j < i ==> uid@[j] == response@[6 + j],
        decreases uid_len - i,
    {
        uid.push(response[6 + i]);
        i = i + 1;
    }
    proof {
        assert(uid@ =~= response@.subrange(6, 6 + uid_len as int));
    }
    Some(uid)
}

/// Whether a new detection is eligible: either none has happened yet, or
/// the cool-down window since the last one has fully elapsed.
pub open spec fn cooldown_over(last_detection_ms: Option<u64>, cooldown_ms: u64, now_ms: u64) -> bool {
    match last_detection_ms {
        Option::None => true,
        Option::Some(t) => now_ms >= t + cooldown_ms,
    }
}

/// The cool-down state of the NFC poller.
pub struct NfcCooldown {
    last_detection_ms: Option<u64>,
    cooldown_ms: u64,
}

impl NfcCooldown {
    /// When the last detection happened, if any.
    pub closed spec fn last_detection_spec(&self) -> Option<u64> {
        self.last_detection_ms
    }

    /// The configured window length.
    pub closed spec fn cooldown_spec(&self) -> u64 {
        self.cooldown_ms
    }

    /// A fresh poller with the given window and no detection yet.
    pub fn new(cooldown_ms: u64) -> (c: NfcCooldown)
        ensures
            c.last_detection_spec() is None,
            c.cooldown_spec() == cooldown_ms,
    {
        NfcCooldown { last_detection_ms: None, cooldown_ms }
    }

    /// Whether a detection raised now would be eligible.
    pub fn eligible(&self, now_ms: u64) -> (b: bool)
        ensures
            b == cooldown_over(self.last_detection_spec(), self.cooldown_spec(), now_ms),
    {
        match self.last_detection_ms {
            Option::None => true,
            Option::Some(t) => now_ms >= t && now_ms - t >= self.cooldown_ms,
        }
    }

    /// Record a detection, opening a fresh cool-down window.
    pub fn record_detection(&mut self, now_ms: u64)
        ensures
            final(self).last_detection_spec() == Some(now_ms),
            final(self).cooldown_spec() == old(self).cooldown_spec(),
    {
        self.last_detection_ms = Some(now_ms);
    }
}

/// Law (cool-down): right after a detection the poller is silent for the
/// whole window, and eligible again once the window has elapsed.
pub proof fn lemma_cooldown_window(detect_ms: u64, cooldown_ms: u64, now_ms: u64)
    requires
        detect_ms + cooldown_ms <= u64::MAX,
    ensures
        now_ms < detect_ms + cooldown_ms ==> !cooldown_over(Some(detect_ms), cooldown_ms, now_ms),
        now_ms >= detect_ms + cooldown_ms ==> cooldown_over(Some(detect_ms), cooldown_ms, now_ms),
{
}

} // verus!
