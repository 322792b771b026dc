//! The bookkeeping of a shader program: which texture unit and which uniform block
//! binding each named variable gets, the names under which uniforms are looked
//! up, the header put in front of the shader sources, and which error a failed
//! link reports.

use vstd::prelude::*;

use crate::error::CoreError;
use crate::glenum;

verus! {

/// The names a program has handed out slots to (texture units or uniform block
/// bindings), in the order of their first use: the slot of a name is its
/// position, and no name occurs twice.
pub struct SlotNames {
    names: Vec<String>,
}

/// The strings of a sequence as character sequences.
pub open spec fn char_seqs(names: Seq<String>) -> Seq<Seq<char>> {
    names.map_values(|s: String| s@)
}

/// No name occurs twice.
pub open spec fn distinct_names(names: Seq<Seq<char>>) -> bool {
    forall|i: int, j: int| 0 <= i < j < names.len() ==> names[i] != names[j]
}

impl View for SlotNames {
    type V = Seq<Seq<char>>;

    closed spec fn view(&self) -> Seq<Seq<char>> {
        char_seqs(self.names@)
    }
}

impl SlotNames {
    /// No name has a slot twice.
    pub open spec fn well_formed(&self) -> bool {
        distinct_names(self@)
    }

    /// No slot handed out yet.
    pub fn new() -> (r: SlotNames)
        ensures
            r@ == Seq::<Seq<char>>::empty(),
            r.well_formed(),
    {
        let r = SlotNames { names: Vec::new() };
        assert(r@ =~= Seq::<Seq<char>>::empty());
        r
    }

    /// The number of slots handed out.
    pub fn len(&self) -> (r: usize)
        ensures
            r == self@.len(),
    {
        self.names.len()
    }

    /// The slot of `name`, if it has one: the first place where it stands.
    pub fn position(&self, name: &str) -> (r: Option<usize>)
        ensures
            match r {
                Some(i) => i < self@.len() && self@[i as int] == name@ && forall|j: int|
                    0 <= j < i ==> self@[j] != name@,
                None => !self@.contains(name@),
            },
    {
        let key = String::from_str(name);
        let mut i: usize = 0;
        while i < self.names.len()
            invariant
                i <= self.names@.len(),
                key@ == name@,
                self@ == char_seqs(self.names@),
                forall|j: int| 0 <= j < i ==> self@[j] != name@,
            decreases self.names@.len() - i,
        {
            if self.names[i] == key {
                return Some(i);
            }
            i = i + 1;
        }
        proof {
            assert forall|j: int| 0 <= j < self@.len() implies self@[j] != name@ by {}
        }
        None
    }

    /// The slot of `name`: the one it was given before, or else the next free one,
    /// which it keeps from now on.
    pub fn slot(&mut self, name: &str) -> (r: u32)
        requires
            old(self).well_formed(),
        ensures
            final(self).well_formed(),
            match index_of_name(old(self)@, name@) {
                Some(i) => r == i as u32 && final(self)@ == old(self)@,
                None => r == old(self)@.len() as u32 && final(self)@ == old(self)@.push(name@),
            },
    {
        match self.position(name) {
            Some(i) => {
                proof {
                    lemma_index_of_name(old(self)@, name@, i as int);
                }
                i as u32
            },
            None => {
                let index = self.names.len() as u32;
                self.names.push(String::from_str(name));
                proof {
                    assert(self@ =~= old(self)@.push(name@));
                    assert(index_of_name(old(self)@, name@) is None);
                }
                index
            },
        }
    }
}

/// Where `name` stands in `names`, if it does.
pub open spec fn index_of_name(names: Seq<Seq<char>>, name: Seq<char>) -> Option<int> {
    if names.contains(name) {
        Some(choose|i: int| 0 <= i < names.len() && names[i] == name)
    } else {
        None
    }
}

/// In a sequence without repetitions, a name that stands at `i` stands nowhere else.
pub proof fn lemma_index_of_name(names: Seq<Seq<char>>, name: Seq<char>, i: int)
    requires
        distinct_names(names),
        0 <= i < names.len(),
        names[i] == name,
    ensures
        index_of_name(names, name) == Some(i),
{
    assert(names.contains(name));
    let j = choose|j: int| 0 <= j < names.len() && names[j] == name;
    if j != i {
        if j < i {
            assert(names[j] != names[i]);
        } else {
            assert(names[i] != names[j]);
        }
    }
}

/// A name keeps its slot: asking again for a name that has one changes nothing
/// and gives the same slot, and different names never share a slot.
pub proof fn lemma_slots_are_stable(names: SlotNames, a: Seq<char>, b: Seq<char>)
    requires
        names.well_formed(),
        names@.contains(a),
        names@.contains(b),
        a != b,
    ensures
        index_of_name(names@, a) is Some,
        index_of_name(names@, a) != index_of_name(names@, b),
{
}

/// The texture unit enumeration value of the unit with the given number.
pub fn texture_unit_enum(unit: u32) -> (r: u32)
    requires
        unit <= u32::MAX - 0x84C0,
    ensures
        r == 0x84C0 + unit,
{
    glenum::gl_texture0() + unit
}

/// The name under which a uniform is looked up: the name the driver reports, up to
/// its first `[` (so that an array is found by its bare name).
pub fn uniform_base_name(name: &str) -> (r: String)
    ensures
        r@.len() <= name@.len(),
        r@ == name@.subrange(0, r@.len() as int),
        forall|i: int| 0 <= i < r@.len() ==> r@[i] != '[',
        r@.len() < name@.len() ==> name@[r@.len() as int] == '[',
{
    let n = name.unicode_len();
    let mut i: usize = 0;
    while i < n
        invariant
            n == name@.len(),
            i <= n,
            forall|j: int| 0 <= j < i ==> name@[j] != '[',
        ensures
            i < n ==> name@[i as int] == '[',
        decreases n - i,
    {
        if name.get_char(i) == '[' {
            break;
        }
        i = i + 1;
    }
    let r = String::from_str(name.substring_char(0, i));
    r
}

/// The first line(s) of every shader source: the language version, and on
/// embedded (web) contexts the float and integer precision.
pub open spec fn spec_shader_header(is_embedded: bool) -> Seq<char> {
    if is_embedded {
        EMBEDDED_SHADER_HEADER@
    } else {
        DESKTOP_SHADER_HEADER@
    }
}

/// The header of shader sources on embedded (web) contexts.
pub const EMBEDDED_SHADER_HEADER: &'static str = "#version 300 es
                    #ifdef GL_FRAGMENT_PRECISION_HIGH
                        precision highp float;
                        precision highp int;
                        precision highp sampler2DArray;
                        precision highp sampler3D;
                    #else
                        precision mediump float;
                        precision mediump int;
                        precision mediump sampler2DArray;
                        precision mediump sampler3D;
                    #endif\n";

/// The header of shader sources on desktop contexts.
pub const DESKTOP_SHADER_HEADER: &'static str = "#version 330 core\n";

/// A shader source with the header for the kind of context in front of it.
pub fn shader_source_with_header(is_embedded: bool, source: &str) -> (r: String)
    ensures
        r@ == spec_shader_header(is_embedded) + source@,
{
    let header = if is_embedded {
        EMBEDDED_SHADER_HEADER
    } else {
        DESKTOP_SHADER_HEADER
    };
    String::from_str(header).concat(source)
}

/// The error a failed link reports: the vertex shader's log if it has one, else
/// the fragment shader's, else the program's.
pub open spec fn spec_link_error(
    vertex_log: Seq<char>,
    vertex_source: Seq<char>,
    fragment_log: Seq<char>,
    fragment_source: Seq<char>,
    program_log: Seq<char>,
    e: CoreError,
) -> bool {
    if vertex_log.len() > 0 {
        e matches CoreError::ShaderCompilation(kind, log, source) && kind@ == "vertex"@ && log@
            == vertex_log && source@ == vertex_source
    } else if fragment_log.len() > 0 {
        e matches CoreError::ShaderCompilation(kind, log, source) && kind@ == "fragment"@ && log@
            == fragment_log && source@ == fragment_source
    } else {
        e matches CoreError::ShaderLink(log) && log@ == program_log
    }
}

/// Chooses the error of a program that failed to link from the logs of its two
/// shaders and its own log (at least one of which is not empty).
pub fn link_error(
    vertex_log: String,
    vertex_source: String,
    fragment_log: String,
    fragment_source: String,
    program_log: String,
) -> (r: CoreError)
    requires
        vertex_log@.len() > 0 || fragment_log@.len() > 0 || program_log@.len() > 0,
    ensures
        spec_link_error(
            vertex_log@,
            vertex_source@,
            fragment_log@,
            fragment_source@,
            program_log@,
            r,
        ),
{
    if vertex_log.unicode_len() > 0 {
        CoreError::ShaderCompilation(String::from_str("vertex"), vertex_log, vertex_source)
    } else if fragment_log.unicode_len() > 0 {
        CoreError::ShaderCompilation(String::from_str("fragment"), fragment_log, fragment_source)
    } else {
        CoreError::ShaderLink(program_log)
    }
}

} // verus!
