//! The order of the module registry: modules are kept by name, names are
//! compared byte by byte, and a name occurs at most once.
use vstd::prelude::*;
use vstd::utf8::{encode_utf8, encode_utf8_decode_utf8};

use crate::DescriptorDecoderModule;

verus! {

/// Whether `a` stands before `b` in the lexicographic order of bytes: at the
/// first place where they differ `a` has the smaller byte, or `a` ends
/// there and `b` goes on.
pub open spec fn spec_bytes_less(a: Seq<u8>, b: Seq<u8>) -> bool
    decreases a.len(),
{
    if b.len() == 0 {
        false
    } else if a.len() == 0 {
        true
    } else if a.first() != b.first() {
        a.first() < b.first()
    } else {
        spec_bytes_less(a.drop_first(), b.drop_first())
    }
}

/// No sequence of bytes stands before itself.
pub proof fn lemma_bytes_less_irreflexive(a: Seq<u8>)
    ensures
        !spec_bytes_less(a, a),
    decreases a.len(),
{
    if a.len() > 0 {
        lemma_bytes_less_irreflexive(a.drop_first());
    }
}

/// Of two different sequences of bytes one stands before the other.
pub proof fn lemma_bytes_less_total(a: Seq<u8>, b: Seq<u8>)
    ensures
        spec_bytes_less(a, b) || spec_bytes_less(b, a) || a == b,
    decreases a.len(),
{
    if a.len() == 0 || b.len() == 0 {
        if a.len() == 0 && b.len() == 0 {
            assert(a =~= b);
        }
    } else if a.first() == b.first() {
        lemma_bytes_less_total(a.drop_first(), b.drop_first());
        if a.drop_first() == b.drop_first() {
            assert(a =~= seq![a.first()] + a.drop_first());
            assert(b =~= seq![b.first()] + b.drop_first());
        }
    }
}

/// The order of bytes is transitive.
pub proof fn lemma_bytes_less_transitive(a: Seq<u8>, b: Seq<u8>, c: Seq<u8>)
    requires
        spec_bytes_less(a, b),
        spec_bytes_less(b, c),
    ensures
        spec_bytes_less(a, c),
    decreases a.len(),
{
    if a.len() > 0 && a.first() == b.first() && b.first() == c.first() {
        lemma_bytes_less_transitive(a.drop_first(), b.drop_first(), c.drop_first());
    }
}

/// Whether `a` stands before `b` in the lexicographic order of bytes, which
/// is the order of strings.
pub fn bytes_less(a: &[u8], b: &[u8]) -> (less: bool)
    ensures
        less == spec_bytes_less(a@, b@),
{
    let mut i: usize = 0;
    proof {
        assert(a@.skip(0) =~= a@);
        assert(b@.skip(0) =~= b@);
    }
    while i < a.len() && i < b.len()
        invariant
            i <= a@.len(),
            i <= b@.len(),
            spec_bytes_less(a@, b@) == spec_bytes_less(a@.skip(i as int), b@.skip(i as int)),
        decreases a@.len() - i,
    {
        proof {
            assert(a@.skip(i as int).first() == a@[i as int]);
            assert(b@.skip(i as int).first() == b@[i as int]);
            assert(a@.skip(i as int).drop_first() =~= a@.skip(i + 1));
            assert(b@.skip(i as int).drop_first() =~= b@.skip(i + 1));
        }
        if a[i] != b[i] {
            return a[i] < b[i];
        }
        i = i + 1;
    }
    a.len() < b.len()
}

/// The bytes of the name of `module`, by which the registry orders it.
pub open spec fn spec_name_bytes<M: DescriptorDecoderModule>(module: M) -> Seq<u8> {
    encode_utf8(module.spec_function_name())
}

/// Two names have the same bytes only where they are the same name, so a
/// registry that holds each sequence of name bytes once holds each name
/// once.
pub proof fn lemma_name_bytes_tell_names_apart(a: Seq<char>, b: Seq<char>)
    requires
        encode_utf8(a) == encode_utf8(b),
    ensures
        a == b,
{
    encode_utf8_decode_utf8(a);
    encode_utf8_decode_utf8(b);
}

/// Whether the names of `modules` increase strictly from each module to the
/// next.
pub open spec fn spec_sorted_by_name<M: DescriptorDecoderModule>(modules: Seq<M>) -> bool {
    forall|i: int|
        0 <= i && i + 1 < modules.len() ==> spec_bytes_less(
            spec_name_bytes(#[trigger] modules[i]),
            spec_name_bytes(modules[i + 1]),
        )
}

/// The number of modules at the head of `modules` whose names stand before
/// `name`: the place at which a module of that name belongs.
pub open spec fn spec_rank<M: DescriptorDecoderModule>(modules: Seq<M>, name: Seq<u8>) -> nat
    decreases modules.len(),
{
    if modules.len() > 0 && spec_bytes_less(spec_name_bytes(modules.first()), name) {
        1 + spec_rank(modules.drop_first(), name)
    } else {
        0
    }
}

/// The registry after `module` is registered: it takes the place of the
/// module of the same name, where there is one, and else is inserted where
/// its name belongs.
pub open spec fn spec_register<M: DescriptorDecoderModule>(modules: Seq<M>, module: M) -> Seq<M> {
    let name = spec_name_bytes(module);
    let position = spec_rank(modules, name) as int;
    if position < modules.len() && !spec_bytes_less(name, spec_name_bytes(modules[position])) {
        modules.update(position, module)
    } else {
        modules.insert(position, module)
    }
}

/// The place that `spec_rank` gives lies in the registry or at its end;
/// every module before it has a name that stands before `name`, and the
/// module at it, if there is one, has not.
pub proof fn lemma_rank<M: DescriptorDecoderModule>(modules: Seq<M>, name: Seq<u8>)
    ensures
        spec_rank(modules, name) <= modules.len(),
        forall|i: int|
            0 <= i < spec_rank(modules, name) ==> spec_bytes_less(
                spec_name_bytes(#[trigger] modules[i]),
                name,
            ),
        spec_rank(modules, name) < modules.len() ==> !spec_bytes_less(
            spec_name_bytes(modules[spec_rank(modules, name) as int]),
            name,
        ),
    decreases modules.len(),
{
    if modules.len() > 0 && spec_bytes_less(spec_name_bytes(modules.first()), name) {
        let rest = modules.drop_first();
        lemma_rank(rest, name);
        assert forall|i: int| 0 <= i < spec_rank(modules, name) implies spec_bytes_less(
            spec_name_bytes(#[trigger] modules[i]),
            name,
        ) by {
            if i > 0 {
                assert(modules[i] == rest[i - 1]);
            }
        }
        if spec_rank(modules, name) < modules.len() {
            assert(modules[spec_rank(modules, name) as int] == rest[spec_rank(rest, name) as int]);
        }
    }
}

/// Registering a module keeps the names in strictly increasing order.
pub proof fn lemma_register_keeps_sorted<M: DescriptorDecoderModule>(modules: Seq<M>, module: M)
    requires
        spec_sorted_by_name(modules),
    ensures
        spec_sorted_by_name(spec_register(modules, module)),
{
    let name = spec_name_bytes(module);
    let position = spec_rank(modules, name) as int;
    let after = spec_register(modules, module);
    lemma_rank(modules, name);
    if position < modules.len() {
        lemma_bytes_less_total(name, spec_name_bytes(modules[position]));
    }
    assert forall|i: int| 0 <= i && i + 1 < after.len() implies spec_bytes_less(
        spec_name_bytes(#[trigger] after[i]),
        spec_name_bytes(after[i + 1]),
    ) by {
        if position < modules.len() && !spec_bytes_less(name, spec_name_bytes(modules[position])) {
            assert(spec_name_bytes(modules[position]) == name);
            if i != position && i + 1 != position {
                assert(after[i] == modules[i]);
                assert(after[i + 1] == modules[i + 1]);
            } else if i == position {
                assert(after[i + 1] == modules[i + 1]);
                assert(spec_bytes_less(spec_name_bytes(modules[i]), spec_name_bytes(modules[i + 1])));
            } else {
                assert(after[i] == modules[i]);
                assert(spec_bytes_less(spec_name_bytes(modules[i]), spec_name_bytes(modules[i + 1])));
            }
        } else {
            if i + 1 < position {
                assert(after[i] == modules[i]);
                assert(after[i + 1] == modules[i + 1]);
            } else if i + 1 == position {
                assert(after[i] == modules[i]);
            } else if i == position {
                assert(after[i + 1] == modules[i]);
            } else {
                assert(after[i] == modules[i - 1]);
                assert(after[i + 1] == modules[i]);
                assert(spec_bytes_less(
                    spec_name_bytes(modules[i - 1]),
                    spec_name_bytes(modules[i - 1 + 1]),
                ));
            }
        }
    }
}

/// In a registry whose names increase from each module to the next, the
/// name of an earlier module stands before the name of every later one.
pub proof fn lemma_sorted_pairwise<M: DescriptorDecoderModule>(modules: Seq<M>, i: int, j: int)
    requires
        spec_sorted_by_name(modules),
        0 <= i < j < modules.len(),
    ensures
        spec_bytes_less(spec_name_bytes(modules[i]), spec_name_bytes(modules[j])),
    decreases j - i,
{
    if i + 1 < j {
        lemma_sorted_pairwise(modules, i, j - 1);
        assert(spec_bytes_less(spec_name_bytes(modules[j - 1]), spec_name_bytes(modules[j - 1 + 1])));
        lemma_bytes_less_transitive(
            spec_name_bytes(modules[i]),
            spec_name_bytes(modules[j - 1]),
            spec_name_bytes(modules[j]),
        );
    }
}

/// Registration is a write to a name-keyed map, and the last write wins.
///
/// After `module` is registered it is in the registry, and it is the only
/// module of its name there; every module of another name that was
/// registered before is still registered; and nothing else is.
pub proof fn lemma_register_last_write_wins<M: DescriptorDecoderModule>(modules: Seq<M>, module: M)
    requires
        spec_sorted_by_name(modules),
    ensures
        spec_register(modules, module).contains(module),
        forall|other: M| #[trigger]
            spec_register(modules, module).contains(other) && spec_name_bytes(other)
                == spec_name_bytes(module) ==> other == module,
        forall|other: M| #[trigger]
            modules.contains(other) && spec_name_bytes(other) != spec_name_bytes(module)
                ==> spec_register(modules, module).contains(other),
        forall|other: M| #[trigger]
            spec_register(modules, module).contains(other) ==> other == module || (
            modules.contains(other) && spec_name_bytes(other) != spec_name_bytes(module)),
{
    let name = spec_name_bytes(module);
    let position = spec_rank(modules, name) as int;
    let after = spec_register(modules, module);
    lemma_rank(modules, name);
    lemma_bytes_less_irreflexive(name);
    if position < modules.len() {
        lemma_bytes_less_total(name, spec_name_bytes(modules[position]));
    }
    let replaces = position < modules.len() && !spec_bytes_less(
        name,
        spec_name_bytes(modules[position]),
    );
    assert(after[position] == module);
    assert forall|k: int| 0 <= k < modules.len() && !(replaces && k == position) implies spec_name_bytes(
        #[trigger] modules[k],
    ) != name by {
        if k < position {
        } else if k == position {
        } else {
            lemma_sorted_pairwise(modules, position, k);
            if replaces {
            } else {
                lemma_bytes_less_transitive(
                    name,
                    spec_name_bytes(modules[position]),
                    spec_name_bytes(modules[k]),
                );
            }
        }
    }
    assert forall|other: M| #[trigger]
        after.contains(other) && spec_name_bytes(other) == name implies other == module by {
        let i = choose|i: int| 0 <= i < after.len() && after[i] == other;
        if i != position {
            if replaces {
                assert(after[i] == modules[i]);
            } else if i < position {
                assert(after[i] == modules[i]);
            } else {
                assert(after[i] == modules[i - 1]);
            }
        }
    }
    assert forall|other: M| #[trigger]
        modules.contains(other) && spec_name_bytes(other) != name implies after.contains(other) by {
        let j = choose|j: int| 0 <= j < modules.len() && modules[j] == other;
        if replaces {
            assert(after[j] == other);
        } else if j < position {
            assert(after[j] == other);
        } else {
            assert(after[j + 1] == other);
        }
    }
    assert forall|other: M| #[trigger] after.contains(other) implies other == module || (
    modules.contains(other) && spec_name_bytes(other) != name) by {
        let i = choose|i: int| 0 <= i < after.len() && after[i] == other;
        if i != position {
            if replaces {
                assert(modules[i] == other);
            } else if i < position {
                assert(modules[i] == other);
            } else {
                assert(modules[i - 1] == other);
            }
        }
    }
}

/// The place in `modules` at which a module of the name `name` belongs.
pub fn rank<M: DescriptorDecoderModule>(modules: &Vec<M>, name: &[u8]) -> (position: usize)
    ensures
        position == spec_rank(modules@, name@),
        position <= modules@.len(),
{
    let mut position: usize = 0;
    proof {
        assert(modules@.skip(0) =~= modules@);
    }
    while position < modules.len()
        invariant
            position <= modules@.len(),
            spec_rank(modules@, name@) == position + spec_rank(
                modules@.skip(position as int),
                name@,
            ),
        decreases modules@.len() - position,
    {
        let present = modules[position].function_name_string();
        proof {
            assert(modules@.skip(position as int).first() == modules@[position as int]);
            assert(modules@.skip(position as int).drop_first() =~= modules@.skip(position + 1));
        }
        if !bytes_less(present.as_str().as_bytes(), name) {
            return position;
        }
        position = position + 1;
    }
    position
}

/// The module that a function of the given triple is handed to: the first
/// in the order of the registry that accepts the triple.
pub open spec fn spec_select<M: DescriptorDecoderModule>(
    modules: Seq<M>,
    class: u8,
    subclass: u8,
    protocol: u8,
) -> Option<M>
    decreases modules.len(),
{
    if modules.len() == 0 {
        None
    } else if modules.first().spec_filter_triple(class, subclass, protocol) {
        Some(modules.first())
    } else {
        spec_select(modules.drop_first(), class, subclass, protocol)
    }
}

/// A module is selected exactly where some registered module accepts the
/// triple, and the selected one is the first of those.
pub proof fn lemma_select_first_accepting<M: DescriptorDecoderModule>(
    modules: Seq<M>,
    class: u8,
    subclass: u8,
    protocol: u8,
)
    ensures
        spec_select(modules, class, subclass, protocol) is None <==> forall|i: int|
            0 <= i < modules.len() ==> !(#[trigger] modules[i]).spec_filter_triple(
                class,
                subclass,
                protocol,
            ),
        spec_select(modules, class, subclass, protocol) matches Some(module) ==> exists|i: int|
            0 <= i < modules.len() && #[trigger] modules[i] == module
                && module.spec_filter_triple(class, subclass, protocol) && forall|j: int|
                0 <= j < i ==> !(#[trigger] modules[j]).spec_filter_triple(
                    class,
                    subclass,
                    protocol,
                ),
    decreases modules.len(),
{
    if modules.len() == 0 {
    } else if modules.first().spec_filter_triple(class, subclass, protocol) {
        assert(modules[0] == modules.first());
    } else {
        let rest = modules.drop_first();
        lemma_select_first_accepting(rest, class, subclass, protocol);
        assert forall|i: int| 0 < i < modules.len() implies modules[i] == rest[i - 1] by {}
        if let Some(module) = spec_select(rest, class, subclass, protocol) {
            let i = choose|i: int|
                0 <= i < rest.len() && #[trigger] rest[i] == module && module.spec_filter_triple(
                    class,
                    subclass,
                    protocol,
                ) && forall|j: int|
                    0 <= j < i ==> !(#[trigger] rest[j]).spec_filter_triple(
                        class,
                        subclass,
                        protocol,
                    );
            assert(modules[i + 1] == module);
            assert forall|j: int| 0 <= j < i + 1 implies !(#[trigger] modules[j]).spec_filter_triple(
                class,
                subclass,
                protocol,
            ) by {
                if j > 0 {
                    assert(modules[j] == rest[j - 1]);
                }
            }
        } else {
            assert forall|i: int| 0 <= i < modules.len() implies !(
            #[trigger] modules[i]).spec_filter_triple(class, subclass, protocol) by {
                if i > 0 {
                    assert(modules[i] == rest[i - 1]);
                }
            }
        }
    }
}

/// Scans `modules` in order for the first that accepts the triple.
pub fn select<'a, M: DescriptorDecoderModule>(
    modules: &'a Vec<M>,
    class: u8,
    subclass: u8,
    protocol: u8,
) -> (selected: Option<&'a M>)
    ensures
        match selected {
            Some(module) => spec_select(modules@, class, subclass, protocol) == Some(*module),
            None => spec_select(modules@, class, subclass, protocol) is None,
        },
{
    let mut i: usize = 0;
    proof {
        assert(modules@.skip(0) =~= modules@);
    }
    while i < modules.len()
        invariant
            i <= modules@.len(),
            spec_select(modules@, class, subclass, protocol) == spec_select(
                modules@.skip(i as int),
                class,
                subclass,
                protocol,
            ),
        decreases modules@.len() - i,
    {
        proof {
            assert(modules@.skip(i as int).first() == modules@[i as int]);
            assert(modules@.skip(i as int).drop_first() =~= modules@.skip(i + 1));
        }
        if modules[i].filter_triple(class, subclass, protocol) {
            return Some(&modules[i]);
        }
        i = i + 1;
    }
    None
}

} // verus!
