use vstd::prelude::*;
use vstd::string::StringExecFns;

verus! {

/// Position reached from `i` after `k` steps forward among `n` entries.
pub open spec fn forward(i: nat, k: nat, n: nat) -> nat
    decreases k,
{
    if k == 0 {
        i
    } else {
        ((forward(i, (k - 1) as nat, n) + 1) % n) as nat
    }
}

/// Position reached from `i` after `k` steps back among `n` entries.
pub open spec fn backward(i: nat, k: nat, n: nat) -> nat
    decreases k,
{
    if k == 0 {
        i
    } else {
        let j = backward(i, (k - 1) as nat, n);
        if j == 0 {
            (n - 1) as nat
        } else {
            (j - 1) as nat
        }
    }
}

proof fn lemma_forward_mod(i: nat, k: nat, n: nat)
    requires
        n > 0,
        i < n,
    ensures
        forward(i, k, n) == ((i + k) as int) % (n as int),
    decreases k,
{
    if k > 0 {
        lemma_forward_mod(i, (k - 1) as nat, n);
        let a = i + k - 1;
        assert(((a % (n as int)) + 1) % (n as int) == (a + 1) % (n as int)) by {
            vstd::arithmetic::div_mod::lemma_add_mod_noop(a, 1, n as int);
            vstd::arithmetic::div_mod::lemma_mod_twice(1, n as int);
            vstd::arithmetic::div_mod::lemma_add_mod_noop(a % (n as int), 1, n as int);
            vstd::arithmetic::div_mod::lemma_mod_twice(a, n as int);
        }
    } else {
        vstd::arithmetic::div_mod::lemma_small_mod(i, n);
    }
}

proof fn lemma_backward_mod(i: nat, k: nat, n: nat)
    requires
        n > 0,
        i < n,
    ensures
        backward(i, k, n) == (i - k) % (n as int),
    decreases k,
{
    if k > 0 {
        lemma_backward_mod(i, (k - 1) as nat, n);
        let a = i - (k - 1);
        let j = a % (n as int);
        assert((j - 1) % (n as int) == (a - 1) % (n as int)) by {
            vstd::arithmetic::div_mod::lemma_sub_mod_noop(a, 1, n as int);
            vstd::arithmetic::div_mod::lemma_sub_mod_noop(j, 1, n as int);
            vstd::arithmetic::div_mod::lemma_mod_twice(a, n as int);
            vstd::arithmetic::div_mod::lemma_mod_twice(1, n as int);
        }
        if j == 0 {
            assert((-1int) % (n as int) == n - 1) by {
                vstd::arithmetic::div_mod::lemma_fundamental_div_mod_converse(-1, n as int, -1, n - 1);
            }
        } else {
            vstd::arithmetic::div_mod::lemma_small_mod((j - 1) as nat, n);
        }
    } else {
        vstd::arithmetic::div_mod::lemma_small_mod(i, n);
    }
}

/// A fixed catalog of named fragment-shader bodies, with the text that wraps
/// every body, and the position of the shader on display.
#[derive(Debug, Clone, Copy)]
pub struct ShaderList {
    prefix: &'static str,
    suffix: &'static str,
    shaders: &'static [(&'static str, &'static str)],
    current_shader: usize,
}

impl ShaderList {
    /// Number of entries in the catalog.
    pub closed spec fn len(self) -> nat {
        self.shaders@.len()
    }

    /// Position of the shader on display.
    pub closed spec fn index(self) -> nat {
        self.current_shader as nat
    }

    /// The catalog is not empty and the position names one of its entries.
    pub open spec fn wf(self) -> bool {
        &&& self.len() > 0
        &&& self.index() < self.len()
    }

    pub closed spec fn prefix_text(self) -> Seq<char> {
        self.prefix@
    }

    pub closed spec fn suffix_text(self) -> Seq<char> {
        self.suffix@
    }

    /// Name of the entry at position `i`.
    pub closed spec fn name_at(self, i: int) -> Seq<char> {
        self.shaders@[i].0@
    }

    /// Body of the entry at position `i`.
    pub closed spec fn body_at(self, i: int) -> Seq<char> {
        self.shaders@[i].1@
    }

    /// The compilable source of entry `i`: the body between prefix and suffix.
    pub open spec fn source_at(self, i: int) -> Seq<char> {
        self.prefix_text() + self.body_at(i) + self.suffix_text()
    }

    /// Both lists hold the same catalog and the same wrapping text.
    pub open spec fn same_catalog(self, other: ShaderList) -> bool {
        &&& self.len() == other.len()
        &&& self.prefix_text() == other.prefix_text()
        &&& self.suffix_text() == other.suffix_text()
        &&& forall|i: int|
            0 <= i < self.len() ==> #[trigger] self.name_at(i) == other.name_at(i)
                && self.body_at(i) == other.body_at(i)
    }

    /// Position after one step forward.
    pub open spec fn next_index(self) -> nat {
        ((self.index() + 1) % self.len()) as nat
    }

    /// Position after one step back.
    pub open spec fn previous_index(self) -> nat {
        if self.index() == 0 {
            (self.len() - 1) as nat
        } else {
            (self.index() - 1) as nat
        }
    }

    /// The name and full source of the shader on display.
    pub open spec fn current_view(self) -> (Seq<char>, Seq<char>) {
        (self.name_at(self.index() as int), self.source_at(self.index() as int))
    }

    /// Lists that hold the same catalog at the same position show the same shader.
    pub proof fn lemma_same_position_same_view(self, other: ShaderList)
        requires
            self.wf(),
            other.same_catalog(self),
            other.index() == self.index(),
        ensures
            other.current_view() == self.current_view(),
    {
    }

    /// Stepping forward as many times as the catalog has entries comes back to
    /// the starting position and shows the same shader again.
    pub proof fn lemma_forward_cycle(self, end: ShaderList)
        requires
            self.wf(),
            end.same_catalog(self),
            end.index() == forward(self.index(), self.len(), self.len()),
        ensures
            end.index() == self.index(),
            end.current_view() == self.current_view(),
    {
        lemma_forward_mod(self.index(), self.len(), self.len());
        vstd::arithmetic::div_mod::lemma_mod_add_multiples_vanish(self.index() as int, self.len() as int);
        vstd::arithmetic::div_mod::lemma_small_mod(self.index(), self.len());
    }

    /// Stepping back as many times as the catalog has entries comes back to
    /// the starting position and shows the same shader again.
    pub proof fn lemma_backward_cycle(self, end: ShaderList)
        requires
            self.wf(),
            end.same_catalog(self),
            end.index() == backward(self.index(), self.len(), self.len()),
        ensures
            end.index() == self.index(),
            end.current_view() == self.current_view(),
    {
        lemma_backward_mod(self.index(), self.len(), self.len());
        vstd::arithmetic::div_mod::lemma_mod_sub_multiples_vanish(self.index() as int, self.len() as int);
        vstd::arithmetic::div_mod::lemma_small_mod(self.index(), self.len());
    }

    /// Asking twice for the shader on display, with no step between, gives the
    /// same name and the same source.
    pub proof fn lemma_current_repeatable(
        self,
        first: (Seq<char>, Seq<char>),
        second: (Seq<char>, Seq<char>),
    )
        requires
            self.wf(),
            first == self.current_view(),
            second == self.current_view(),
        ensures
            first == second,
            second.1 == self.prefix_text() + self.body_at(self.index() as int) + self.suffix_text(),
    {
    }

    /// Builds a list positioned on the first entry. The catalog may not be empty.
    pub fn new(
        prefix: &'static str,
        suffix: &'static str,
        shaders: &'static [(&'static str, &'static str)],
    ) -> (r: Self)
        requires
            shaders@.len() > 0,
        ensures
            r.wf(),
            r.index() == 0,
            r.prefix_text() == prefix@,
            r.suffix_text() == suffix@,
            r.len() == shaders@.len(),
            forall|i: int|
                0 <= i < shaders@.len() ==> #[trigger] r.name_at(i) == shaders@[i].0@
                    && r.body_at(i) == shaders@[i].1@,
    {
        ShaderList { prefix, suffix, shaders, current_shader: 0 }
    }

    /// Steps forward, wrapping past the last entry, and returns the new shader.
    pub fn next_shader(&mut self) -> (r: (&'static str, String))
        requires
            old(self).wf(),
        ensures
            final(self).same_catalog(*old(self)),
            final(self).index() == old(self).next_index(),
            final(self).wf(),
            (r.0@, r.1@) == final(self).current_view(),
    {
        self.increment_index();
        self.current_shader()
    }

    /// Steps back, wrapping before the first entry, and returns the new shader.
    pub fn previous_shader(&mut self) -> (r: (&'static str, String))
        requires
            old(self).wf(),
        ensures
            final(self).same_catalog(*old(self)),
            final(self).index() == old(self).previous_index(),
            final(self).wf(),
            (r.0@, r.1@) == final(self).current_view(),
    {
        self.decrement_index();
        self.current_shader()
    }

    /// The name of the shader on display and its body between prefix and suffix.
    pub fn current_shader(&self) -> (r: (&'static str, String))
        requires
            self.wf(),
        ensures
            r.0@ == self.name_at(self.index() as int),
            r.1@ == self.prefix_text() + self.body_at(self.index() as int) + self.suffix_text(),
            (r.0@, r.1@) == self.current_view(),
    {
        let (shader_name, shader_body) = self.shaders[self.current_shader];
        let mut full_shader = String::from_str(self.prefix);
        full_shader.append(shader_body);
        full_shader.append(self.suffix);
        (shader_name, full_shader)
    }

    /// Moves one step forward, wrapping past the last entry; returns the new position.
    pub fn increment_index(&mut self) -> (r: usize)
        requires
            old(self).wf(),
        ensures
            final(self).same_catalog(*old(self)),
            final(self).index() == old(self).next_index(),
            final(self).wf(),
            r as nat == final(self).index(),
            r as nat == (old(self).index() + 1) % old(self).len(),
    {
        let len = self.shaders.len();
        self.current_shader = (self.current_shader + 1) % len;
        self.current_shader
    }

    /// Moves one step back, wrapping from the first entry to the last; returns
    /// the new position.
    pub fn decrement_index(&mut self) -> (r: usize)
        requires
            old(self).wf(),
        ensures
            final(self).same_catalog(*old(self)),
            final(self).index() == old(self).previous_index(),
            final(self).wf(),
            r as nat == final(self).index(),
            old(self).index() == 0 ==> r as nat == old(self).len() - 1,
            old(self).index() > 0 ==> r as nat == old(self).index() - 1,
    {
        if self.current_shader == 0 {
            self.current_shader = self.shaders.len() - 1;
        } else {
            self.current_shader = self.current_shader - 1;
        }
        self.current_shader
    }
}

} // verus!
