//! The runtime BLE device name: a template in which every `{slot}` token is
//! replaced by the one-based BLE profile number when advertising.
use vstd::prelude::*;
use crate::text::{decimal, decimal_digits, spec_utf8_prefix_len, utf8_prefix};

verus! {

/// The bytes of the `{slot}` token.
pub open spec fn slot_token() -> Seq<u8> {
    seq![0x7Bu8, 0x73u8, 0x6Cu8, 0x6Fu8, 0x74u8, 0x7Du8]
}

/// `t` with every `{slot}` token, left to right, replaced by `digits`.
pub open spec fn spec_render(t: Seq<u8>, digits: Seq<u8>) -> Seq<u8>
    decreases t.len(),
{
    if t.len() < 6 {
        t
    } else if t.take(6) == slot_token() {
        digits + spec_render(t.skip(6), digits)
    } else {
        seq![t[0]] + spec_render(t.skip(1), digits)
    }
}

fn token_at(t: &[u8], i: usize) -> (r: bool)
    requires
        i + 6 <= t@.len(),
    ensures
        r == (t@.skip(i as int).take(6) == slot_token()),
{
    let r = t[i] == 0x7B && t[i + 1] == 0x73 && t[i + 2] == 0x6C && t[i + 3] == 0x6F && t[i + 4] == 0x74
        && t[i + 5] == 0x7D;
    if r {
        assert(t@.skip(i as int).take(6) =~= slot_token());
    } else {
        assert(t@.skip(i as int).take(6) != slot_token()) by {
            if t@.skip(i as int).take(6) == slot_token() {
                assert(t@.skip(i as int).take(6)[0] == t@[i as int]);
                assert(t@.skip(i as int).take(6)[1] == t@[i + 1]);
                assert(t@.skip(i as int).take(6)[2] == t@[i + 2]);
                assert(t@.skip(i as int).take(6)[3] == t@[i + 3]);
                assert(t@.skip(i as int).take(6)[4] == t@[i + 4]);
                assert(t@.skip(i as int).take(6)[5] == t@[i + 5]);
            }
        }
    }
    r
}

/// Render `template` for the zero-based BLE `profile`: each `{slot}` becomes
/// `profile + 1` in decimal.
pub fn render(template: &[u8], profile: u8) -> (r: Vec<u8>)
    ensures
        r@ == spec_render(template@, decimal(profile as nat + 1)),
{
    let digits = decimal_digits(profile as u16 + 1);
    let n = template.len();
    let mut out: Vec<u8> = Vec::new();
    let mut i: usize = 0;
    assert(template@.skip(0) =~= template@);
    while i < n
        invariant
            n == template@.len(),
            i <= n,
            digits@ == decimal(profile as nat + 1),
            out@ + spec_render(template@.skip(i as int), digits@) == spec_render(template@, digits@),
        decreases n - i,
    {
        let ghost rest = template@.skip(i as int);
        let ghost before = out@;
        if n - i >= 6 && token_at(template, i) {
            let mut j: usize = 0;
            while j < digits.len()
                invariant
                    j <= digits@.len(),
                    out@ == before + digits@.take(j as int),
                decreases digits@.len() - j,
            {
                out.push(digits[j]);
                assert(out@ =~= before + digits@.take(j + 1));
                j = j + 1;
            }
            assert(digits@.take(j as int) =~= digits@);
            assert(rest.skip(6) =~= template@.skip(i + 6));
            assert(before + spec_render(rest, digits@) =~= out@ + spec_render(template@.skip(i + 6), digits@));
            i = i + 6;
        } else {
            out.push(template[i]);
            if n - i >= 6 {
                assert(rest.take(6) == template@.skip(i as int).take(6));
            }
            assert(rest.skip(1) =~= template@.skip(i + 1));
            assert(rest[0] == template@[i as int]);
            assert(before + spec_render(rest, digits@) =~= out@ + spec_render(template@.skip(i + 1), digits@));
            i = i + 1;
        }
    }
    assert(template@.skip(i as int) =~= Seq::<u8>::empty());
    assert(out@ + spec_render(template@.skip(i as int), digits@) =~= out@);
    out
}

/// A template without a `{slot}` token renders as itself.
pub proof fn lemma_render_without_token(t: Seq<u8>, digits: Seq<u8>)
    requires
        forall|i: int| 0 <= i <= t.len() - 6 ==> #[trigger] t.skip(i).take(6) != slot_token(),
    ensures
        spec_render(t, digits) == t,
    decreases t.len(),
{
    if t.len() >= 6 {
        assert(t.skip(0) =~= t);
        assert forall|i: int| 0 <= i <= t.skip(1).len() - 6 implies #[trigger] t.skip(1).skip(i).take(6)
            != slot_token() by {
            assert(t.skip(1).skip(i) =~= t.skip(i + 1));
        }
        lemma_render_without_token(t.skip(1), digits);
        assert(seq![t[0]] + t.skip(1) =~= t);
    }
}

fn bytes_eq(a: &Vec<u8>, b: &Vec<u8>) -> (r: bool)
    ensures
        r == (a@ == b@),
{
    if a.len() != b.len() {
        return false;
    }
    let mut i: usize = 0;
    while i < a.len()
        invariant
            a@.len() == b@.len(),
            i <= a@.len(),
            forall|j: int| 0 <= j < i ==> a@[j] == b@[j],
        decreases a@.len() - i,
    {
        if a[i] != b[i] {
            return false;
        }
        i = i + 1;
    }
    assert(a@ =~= b@);
    true
}

/// The live name template, once seeded.
pub struct BleNameStore {
    current: Option<Vec<u8>>,
    max_len: usize,
}

impl BleNameStore {
    pub closed spec fn spec_current(&self) -> Option<Seq<u8>> {
        match self.current {
            Some(v) => Some(v@),
            None => None,
        }
    }

    pub closed spec fn spec_max_len(&self) -> usize {
        self.max_len
    }

    /// A store for templates of at most `max_len` bytes, not yet seeded.
    pub fn new(max_len: usize) -> (r: Self)
        ensures
            r.spec_current() is None,
            r.spec_max_len() == max_len,
    {
        BleNameStore { current: None, max_len }
    }

    /// A template from configuration text, cut at the last whole character
    /// that fits.
    pub fn from_default(&self, template: &[u8]) -> (r: Vec<u8>)
        ensures
            r@ == template@.take(spec_utf8_prefix_len(template@, self.spec_max_len() as nat) as int),
    {
        utf8_prefix(template, self.max_len)
    }

    /// Seed the template from the keyboard configuration, once.
    pub fn initialize(&mut self, template: &[u8])
        ensures
            final(self).spec_max_len() == old(self).spec_max_len(),
            old(self).spec_current() is Some ==> final(self).spec_current() == old(self).spec_current(),
            old(self).spec_current() is None ==> final(self).spec_current() == Some(
                template@.take(spec_utf8_prefix_len(template@, old(self).spec_max_len() as nat) as int),
            ),
    {
        if self.current.is_none() {
            let v = self.from_default(template);
            self.current = Some(v);
        }
    }

    /// Install `value`; returns whether it differs from the current one.
    pub fn replace(&mut self, value: Vec<u8>) -> (changed: bool)
        ensures
            final(self).spec_max_len() == old(self).spec_max_len(),
            final(self).spec_current() == Some(value@),
            changed == (old(self).spec_current() != Some(value@)),
    {
        let same = match &self.current {
            Some(current) => bytes_eq(current, &value),
            None => false,
        };
        if same {
            return false;
        }
        self.current = Some(value);
        true
    }

    /// Restore a persisted template without waking advertising; an empty
    /// one is ignored.
    pub fn restore(&mut self, value: Vec<u8>)
        ensures
            final(self).spec_max_len() == old(self).spec_max_len(),
            value@.len() == 0 ==> final(self).spec_current() == old(self).spec_current(),
            value@.len() > 0 ==> final(self).spec_current() == Some(value@),
    {
        if value.len() > 0 {
            let _ = self.replace(value);
        }
    }

    /// Replace the live template. An empty name is rejected; otherwise
    /// returns whether advertising must be woken (the name changed).
    pub fn set(&mut self, value: Vec<u8>) -> (r: Result<bool, ()>)
        ensures
            final(self).spec_max_len() == old(self).spec_max_len(),
            value@.len() == 0 <==> r is Err,
            r is Err ==> final(self).spec_current() == old(self).spec_current(),
            r matches Ok(wake) ==> final(self).spec_current() == Some(value@) && wake == (old(self).spec_current()
                != Some(value@)),
    {
        if value.len() == 0 {
            return Err(());
        }
        Ok(self.replace(value))
    }

    /// The template in effect: the live one, or "RMK" (cut to the limit)
    /// before any was seeded.
    pub open spec fn spec_template(&self) -> Seq<u8> {
        match self.spec_current() {
            Some(t) => t,
            None => seq![0x52u8, 0x4Du8, 0x4Bu8].take(
                spec_utf8_prefix_len(seq![0x52u8, 0x4Du8, 0x4Bu8], self.spec_max_len() as nat) as int,
            ),
        }
    }

    /// The live template, or "RMK" before any was seeded.
    pub fn current(&self) -> (r: Vec<u8>)
        ensures
            r@ == self.spec_template(),
    {
        match &self.current {
            Some(t) => {
                let mut out: Vec<u8> = Vec::new();
                let mut i: usize = 0;
                while i < t.len()
                    invariant
                        i <= t@.len(),
                        out@ == t@.take(i as int),
                    decreases t@.len() - i,
                {
                    out.push(t[i]);
                    assert(out@ =~= t@.take(i + 1));
                    i = i + 1;
                }
                assert(t@.take(i as int) =~= t@);
                out
            },
            None => {
                let rmk: [u8; 3] = [0x52, 0x4D, 0x4B];
                assert(rmk@ =~= seq![0x52u8, 0x4Du8, 0x4Bu8]);
                self.from_default(rmk.as_slice())
            },
        }
    }

    /// The name to advertise for the zero-based BLE `profile`.
    pub fn render(&self, profile: u8) -> (r: Vec<u8>)
        ensures
            r@ == spec_render(self.spec_template(), decimal(profile as nat + 1)),
    {
        let template = self.current();
        render(template.as_slice(), profile)
    }
}

} // verus!
