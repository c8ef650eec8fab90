//! The password generator.
use crate::entropy::{draw_below, open_os_rng};
use crate::pools::{
    int_pool, lc_pool, lemma_pool_sizes, spec_pool, to_char, uc_pool, INT, LC, SPEC, UC,
};
use rand::os::OsRng;
use vstd::prelude::*;

verus! {

/// Relies on `String::push`: appends the character at the end of the string.
pub assume_specification[ String::push ](s: &mut String, ch: char)
    ensures
        final(s)@ == old(s)@.push(ch),
;

/// One of the four character classes.
#[derive(Clone, Copy, Debug, PartialEq, Eq, Structural)]
pub enum CharClass {
    Digits,
    Lowercase,
    Uppercase,
    Special,
}

/// Which character classes are enabled.
#[derive(Clone, Copy, Debug, PartialEq, Eq, Structural)]
pub struct Classes {
    pub integer: bool,
    pub lc: bool,
    pub uc: bool,
    pub spec: bool,
}

impl Classes {
    /// No class enabled.
    pub open spec fn none() -> Classes {
        Classes { integer: false, lc: false, uc: false, spec: false }
    }

    /// These classes, with `class` enabled as well.
    pub open spec fn enable(self, class: CharClass) -> Classes {
        match class {
            CharClass::Digits => Classes { integer: true, ..self },
            CharClass::Lowercase => Classes { lc: true, ..self },
            CharClass::Uppercase => Classes { uc: true, ..self },
            CharClass::Special => Classes { spec: true, ..self },
        }
    }

    /// At least one class is enabled.
    pub open spec fn has_pool(self) -> bool {
        self.integer || self.lc || self.uc || self.spec
    }

    /// The union of the characters of the enabled classes.
    pub open spec fn available(self) -> Set<char> {
        Set::new(
            |ch: char|
                (self.integer && int_pool().contains(ch)) || (self.lc && lc_pool().contains(ch))
                    || (self.uc && uc_pool().contains(ch)) || (self.spec && spec_pool().contains(
                    ch,
                )),
        )
    }

    /// `s` is a password of `len` characters, each offered by an enabled class.
    pub open spec fn is_password(self, s: Seq<char>, len: nat) -> bool {
        &&& s.len() == len
        &&& forall|i: int| 0 <= i < s.len() ==> #[trigger] self.available().contains(s[i])
    }
}

/// Why no password could be generated.
#[derive(Clone, Copy, Debug, PartialEq, Eq, Structural)]
pub enum GenError {
    /// No character class is enabled.
    NoPoolEnabled,
}

/// The password generator: the enabled character pools and a secure random
/// source of its own.
pub struct Curator {
    integer: Option<Vec<char>>,
    lc: Option<Vec<char>>,
    uc: Option<Vec<char>>,
    spec: Option<Vec<char>>,
    random: OsRng,
}

impl View for Curator {
    type V = Classes;

    closed spec fn view(&self) -> Classes {
        Classes {
            integer: self.integer is Some,
            lc: self.lc is Some,
            uc: self.uc is Some,
            spec: self.spec is Some,
        }
    }
}

impl Curator {
    /// Each stored pool holds exactly the characters of its class, so the
    /// pools on offer are determined by the enabled classes alone.
    pub closed spec fn wf(&self) -> bool {
        &&& (self.integer matches Some(v) ==> v@ == int_pool())
        &&& (self.lc matches Some(v) ==> v@ == lc_pool())
        &&& (self.uc matches Some(v) ==> v@ == uc_pool())
        &&& (self.spec matches Some(v) ==> v@ == spec_pool())
    }

    /// Creates a generator with no class enabled, owning a newly opened
    /// operating system random source; fails with the I/O error when that
    /// source cannot be opened.
    pub fn new() -> (r: std::io::Result<Curator>)
        ensures
            r matches Ok(c) ==> c.wf() && c@ == Classes::none(),
    {
        match open_os_rng() {
            Ok(randomizer) => Ok(
                Curator { integer: None, lc: None, uc: None, spec: None, random: randomizer },
            ),
            Err(e) => Err(e),
        }
    }

    /// Enables the digits `0123456789`.
    pub fn enable_integer(&mut self) -> (r: &mut Self)
        requires
            old(self).wf(),
        ensures
            r.wf(),
            r@ == old(self)@.enable(CharClass::Digits),
            *final(self) == *final(r),
    {
        self.integer = Some(to_char(INT));
        self
    }

    /// Enables the lower case letters `a` to `z`.
    pub fn enable_lc(&mut self) -> (r: &mut Self)
        requires
            old(self).wf(),
        ensures
            r.wf(),
            r@ == old(self)@.enable(CharClass::Lowercase),
            *final(self) == *final(r),
    {
        self.lc = Some(to_char(LC));
        self
    }

    /// Enables the upper case letters `A` to `Z`.
    pub fn enable_uc(&mut self) -> (r: &mut Self)
        requires
            old(self).wf(),
        ensures
            r.wf(),
            r@ == old(self)@.enable(CharClass::Uppercase),
            *final(self) == *final(r),
    {
        self.uc = Some(to_char(UC));
        self
    }

    /// Enables the special characters `!?#$_%&*+,./\:;^~[]`.
    pub fn enable_spec(&mut self) -> (r: &mut Self)
        requires
            old(self).wf(),
        ensures
            r.wf(),
            r@ == old(self)@.enable(CharClass::Special),
            *final(self) == *final(r),
    {
        self.spec = Some(to_char(SPEC));
        self
    }

    /// Generates one password of `occurrences` characters. Each character is
    /// drawn in two stages: first one of the enabled pools, uniformly, then
    /// one character of that pool, uniformly. Fails when no class is enabled.
    pub fn gen_pwd(&mut self, occurrences: usize) -> (r: Result<String, GenError>)
        requires
            old(self).wf(),
        ensures
            final(self).wf(),
            final(self)@ == old(self)@,
            r is Ok <==> old(self)@.has_pool(),
            r matches Err(e) ==> e == GenError::NoPoolEnabled,
            r matches Ok(pwd) ==> old(self)@.is_password(pwd@, occurrences as nat),
            occurrences == 0 && old(self)@.has_pool() ==> (r matches Ok(pwd) && pwd@
                == Seq::<char>::empty()),
    {
        proof {
            lemma_pool_sizes();
        }
        let ghost classes = self@;
        let mut enabled_flags: Vec<&Vec<char>> = Vec::new();
        // The following characters will be randomly picked at generation time.
        if let Some(int_flag) = &self.integer {
            enabled_flags.push(int_flag);
        }
        if let Some(lc_flag) = &self.lc {
            enabled_flags.push(lc_flag);
        }
        if let Some(uc_flag) = &self.uc {
            enabled_flags.push(uc_flag);
        }
        if let Some(spec_flag) = &self.spec {
            enabled_flags.push(spec_flag);
        }
        if enabled_flags.len() == 0 {
            return Err(GenError::NoPoolEnabled);
        }
        let ef_length: usize = enabled_flags.len();
        let mut str_pwd = String::new();
        let mut n: usize = 0;
        while n < occurrences
            invariant
                self.wf(),
                self@ == classes,
                classes.has_pool(),
                ef_length == enabled_flags@.len(),
                0 < ef_length <= 4,
                forall|k: int|
                    0 <= k < ef_length ==> 0 < (#[trigger] enabled_flags@[k])@.len() <= 26,
                forall|k: int, j: int|
                    0 <= k < ef_length && 0 <= j < enabled_flags@[k]@.len()
                        ==> classes.available().contains(#[trigger] enabled_flags@[k]@[j]),
                n <= occurrences,
                classes.is_password(str_pwd@, n as nat),
            decreases occurrences - n,
        {
            let picked_flag_id: u32 = draw_below(&mut self.random, ef_length as u32);
            let picked_vec: &Vec<char> = enabled_flags[picked_flag_id as usize];
            let vec_length: usize = picked_vec.len();
            let char_id: u32 = draw_below(&mut self.random, vec_length as u32);
            let picked_flag_char: char = picked_vec[char_id as usize];
            str_pwd.push(picked_flag_char);
            n = n + 1;
        }
        Ok(str_pwd)
    }

    /// Generates `pwd_number` passwords of `occurrences` characters each,
    /// every one drawn independently as [`Curator::gen_pwd`] draws it. Fails
    /// when no class is enabled, whatever the two numbers.
    pub fn gen_all_pwd(&mut self, occurrences: usize, pwd_number: usize) -> (r: Result<Vec<String>, GenError>)
        requires
            old(self).wf(),
        ensures
            final(self).wf(),
            final(self)@ == old(self)@,
            r is Ok <==> old(self)@.has_pool(),
            r matches Err(e) ==> e == GenError::NoPoolEnabled,
            r matches Ok(list) ==> list@.len() == pwd_number && forall|i: int|
                0 <= i < list@.len() ==> old(self)@.is_password(
                    #[trigger] list@[i]@,
                    occurrences as nat,
                ),
    {
        if !self.has_pool() {
            return Err(GenError::NoPoolEnabled);
        }
        let ghost classes = self@;
        let mut passwords_list: Vec<String> = Vec::new();
        let mut n: usize = 0;
        while n < pwd_number
            invariant
                self.wf(),
                self@ == classes,
                classes.has_pool(),
                n <= pwd_number,
                passwords_list@.len() == n,
                forall|i: int|
                    0 <= i < n ==> classes.is_password(
                        #[trigger] passwords_list@[i]@,
                        occurrences as nat,
                    ),
            decreases pwd_number - n,
        {
            match self.gen_pwd(occurrences) {
                Ok(pwd) => passwords_list.push(pwd),
                Err(e) => {
                    return Err(e);
                },
            }
            n = n + 1;
        }
        Ok(passwords_list)
    }

    /// At least one class is enabled.
    pub fn has_pool(&self) -> (r: bool)
        ensures
            r == self@.has_pool(),
    {
        self.integer.is_some() || self.lc.is_some() || self.uc.is_some() || self.spec.is_some()
    }
}

/// Enabling a class that is already enabled changes nothing: the enabled
/// classes, and so the characters on offer, are those after the first time.
pub proof fn lemma_enable_idempotent(c: Classes, class: CharClass)
    ensures
        c.enable(class).enable(class) == c.enable(class),
        c.enable(class).enable(class).available() == c.enable(class).available(),
{
}

/// Enabling two classes in either order gives the same enabled classes and
/// the same union of characters.
pub proof fn lemma_enable_order_independent(c: Classes, a: CharClass, b: CharClass)
    ensures
        c.enable(a).enable(b) == c.enable(b).enable(a),
        c.enable(a).enable(b).available() == c.enable(b).enable(a).available(),
{
}

/// Once enabled, a class stays enabled: enabling another class keeps every
/// character that was on offer.
pub proof fn lemma_enable_keeps_available(c: Classes, class: CharClass)
    ensures
        c.enable(class).has_pool(),
        c.available().subset_of(c.enable(class).available()),
{
}

} // verus!
