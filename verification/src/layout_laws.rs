//! What reading gives back of what writing wrote: the keyboard layout format round trip.
use crate::bytes::{le_u16, le_u32, lemma_le_u16_of_bytes, lemma_le_u32_of_bytes, u16_bytes, u32_bytes, units_bytes};
use crate::efi_key::law_efi_key_code_decodes;
use crate::layout::{
    descriptions_bytes, description_bytes, description_units, descriptor_bytes,
    descriptors_bytes, guid_bytes, key_bytes, keys_bytes, layout_bytes, layouts_bytes, pkg_bytes,
    pkg_list_bytes, DescriptionModel, Guid, HiiKeyDescriptor, KeyModel, LayoutModel, NsKeyModel,
    PkgListModel, PkgModel, NS_KEY_DEPENDENCY_MODIFIER, NS_KEY_MODIFIER,
};
use crate::layout_read::{
    guid_at, is_dependent_descriptor_at, is_first_space, parse_dependents, parse_descriptor,
    parse_description, parse_descriptions, parse_key, parse_keys, parse_layout, parse_layouts,
    parse_pkg, parse_pkg_list, parse_units, split_at_first_space, ParseError,
};
use crate::utf16::{lemma_utf16_decode_encode, lemma_utf16_encode_no_zero, utf16_decode, utf16_encode};
use vstd::prelude::*;

verus! {

broadcast use vstd::array::group_array_axioms;

/// `b` stands in `s` from `pos` on.
pub open spec fn bytes_at(s: Seq<u8>, pos: int, b: Seq<u8>) -> bool {
    0 <= pos && pos + b.len() <= s.len() && s.subrange(pos, pos + b.len()) == b
}

proof fn lemma_bytes_at_split(s: Seq<u8>, pos: int, a: Seq<u8>, b: Seq<u8>)
    requires
        bytes_at(s, pos, a + b),
    ensures
        bytes_at(s, pos, a),
        bytes_at(s, pos + a.len(), b),
{
    let ab = a + b;
    assert(s.subrange(pos, pos + a.len()) =~= ab.subrange(0, a.len() as int));
    assert(ab.subrange(0, a.len() as int) =~= a);
    assert(s.subrange(pos + a.len(), pos + a.len() + b.len()) =~= ab.subrange(
        a.len() as int,
        ab.len() as int,
    ));
    assert(ab.subrange(a.len() as int, ab.len() as int) =~= b);
}

pub(crate) proof fn lemma_flatten_first<A, B>(xs: Seq<A>, f: spec_fn(A) -> Seq<B>)
    requires
        xs.len() > 0,
    ensures
        xs.map_values(f).flatten() == f(xs[0]) + xs.drop_first().map_values(f).flatten(),
{
    assert(xs.map_values(f).drop_first() =~= xs.drop_first().map_values(f));
}

proof fn lemma_u16_at(s: Seq<u8>, pos: int, v: u16)
    requires
        bytes_at(s, pos, u16_bytes(v)),
    ensures
        le_u16(s, pos) == v,
{
    lemma_le_u16_of_bytes(s, pos, v);
}

proof fn lemma_u32_at(s: Seq<u8>, pos: int, v: u32)
    requires
        bytes_at(s, pos, u32_bytes(v)),
    ensures
        le_u32(s, pos) == v,
{
    lemma_le_u32_of_bytes(s, pos, v);
}

proof fn lemma_guid_at(s: Seq<u8>, pos: int, g: Guid)
    requires
        bytes_at(s, pos, guid_bytes(g)),
    ensures
        guid_at(s, pos) == g,
{
    let a = u32_bytes(g.time_low);
    let b = u16_bytes(g.time_mid);
    let c = u16_bytes(g.time_hi_and_version);
    let d = seq![g.clk_seq_hi_res, g.clk_seq_low];
    let e = g.node@;
    assert(guid_bytes(g) == a + b + c + d + e);
    lemma_bytes_at_split(s, pos, a + b + c + d, e);
    lemma_bytes_at_split(s, pos, a + b + c, d);
    lemma_bytes_at_split(s, pos, a + b, c);
    lemma_bytes_at_split(s, pos, a, b);
    lemma_u32_at(s, pos, g.time_low);
    lemma_u16_at(s, pos + 4, g.time_mid);
    lemma_u16_at(s, pos + 6, g.time_hi_and_version);
    assert(s[pos + 8] == s.subrange(pos + 8, pos + 10)[0]);
    assert(s[pos + 9] == s.subrange(pos + 8, pos + 10)[1]);
    let n = guid_at(s, pos).node;
    assert(s.subrange(pos + 10, pos + 16) == e);
    assert forall|i: int| 0 <= i < 6 implies n[i] == g.node[i] by {
        assert(s.subrange(pos + 10, pos + 16)[i] == s[pos + 10 + i]);
        assert(e[i] == g.node[i]);
    }
    assert(n =~= g.node);
}

proof fn lemma_descriptor_at(s: Seq<u8>, pos: int, d: HiiKeyDescriptor)
    requires
        bytes_at(s, pos, descriptor_bytes(d)),
    ensures
        parse_descriptor(s, pos) == Ok::<(HiiKeyDescriptor, int), ParseError>((d, pos + 16)),
{
    let k = u32_bytes(d.key.spec_code());
    let u1 = u16_bytes(d.unicode);
    let u2 = u16_bytes(d.shifted_unicode);
    let u3 = u16_bytes(d.alt_gr_unicode);
    let u4 = u16_bytes(d.shifted_alt_gr_unicode);
    let u5 = u16_bytes(d.modifier);
    let u6 = u16_bytes(d.affected_attribute);
    assert(descriptor_bytes(d) == k + u1 + u2 + u3 + u4 + u5 + u6);
    lemma_bytes_at_split(s, pos, k + u1 + u2 + u3 + u4 + u5, u6);
    lemma_bytes_at_split(s, pos, k + u1 + u2 + u3 + u4, u5);
    lemma_bytes_at_split(s, pos, k + u1 + u2 + u3, u4);
    lemma_bytes_at_split(s, pos, k + u1 + u2, u3);
    lemma_bytes_at_split(s, pos, k + u1, u2);
    lemma_bytes_at_split(s, pos, k, u1);
    lemma_u32_at(s, pos, d.key.spec_code());
    lemma_u16_at(s, pos + 4, d.unicode);
    lemma_u16_at(s, pos + 6, d.shifted_unicode);
    lemma_u16_at(s, pos + 8, d.alt_gr_unicode);
    lemma_u16_at(s, pos + 10, d.shifted_alt_gr_unicode);
    lemma_u16_at(s, pos + 12, d.modifier);
    lemma_u16_at(s, pos + 14, d.affected_attribute);
    law_efi_key_code_decodes(d.key);
}

proof fn lemma_descriptors_len(ds: Seq<HiiKeyDescriptor>)
    ensures
        descriptors_bytes(ds).len() == 16 * ds.len(),
    decreases ds.len(),
{
    if ds.len() > 0 {
        lemma_flatten_first(ds, |d: HiiKeyDescriptor| descriptor_bytes(d));
        lemma_descriptors_len(ds.drop_first());
    }
}

/// Every dependent descriptor of `ds` carries the dependency modifier.
pub open spec fn all_dependent(ds: Seq<HiiKeyDescriptor>) -> bool {
    forall|i: int| 0 <= i < ds.len() ==> #[trigger] ds[i].modifier == NS_KEY_DEPENDENCY_MODIFIER
}

proof fn lemma_dependents_at(s: Seq<u8>, pos: int, ds: Seq<HiiKeyDescriptor>)
    requires
        all_dependent(ds),
        bytes_at(s, pos, descriptors_bytes(ds)),
        !is_dependent_descriptor_at(s, pos + 16 * ds.len()),
    ensures
        parse_dependents(s, pos) == (ds, pos + 16 * ds.len()),
    decreases ds.len(),
{
    if ds.len() == 0 {
    } else {
        let f = |d: HiiKeyDescriptor| descriptor_bytes(d);
        lemma_flatten_first(ds, f);
        lemma_bytes_at_split(s, pos, descriptor_bytes(ds[0]), descriptors_bytes(ds.drop_first()));
        lemma_descriptor_at(s, pos, ds[0]);
        assert(ds.drop_first().len() == ds.len() - 1);
        assert forall|i: int| 0 <= i < ds.drop_first().len() implies #[trigger] ds.drop_first()[i].modifier
            == NS_KEY_DEPENDENCY_MODIFIER by {
            assert(ds.drop_first()[i] == ds[i + 1]);
        }
        lemma_dependents_at(s, pos + 16, ds.drop_first());
        assert(seq![ds[0]] + ds.drop_first() =~= ds);
    }
}

/// The first descriptor of a key carries the modifier that reading relies on: a non-spacing
/// modifier exactly for a non-spacing key, and every dependent descriptor the dependency modifier.
pub open spec fn key_wf(k: KeyModel) -> bool {
    match k {
        KeyModel::Key(d) => d.modifier != NS_KEY_MODIFIER,
        KeyModel::NsKey(n) => n.descriptor.modifier == NS_KEY_MODIFIER && all_dependent(
            n.dependent_keys,
        ),
    }
}

/// The modifier of the first descriptor of a key.
pub open spec fn first_modifier(k: KeyModel) -> u16 {
    match k {
        KeyModel::Key(d) => d.modifier,
        KeyModel::NsKey(n) => n.descriptor.modifier,
    }
}

/// Keys that read back as written: each key is well formed, and no key right after a
/// non-spacing key carries the dependency modifier (it would be read as one of its dependents).
pub open spec fn keys_wf(ks: Seq<KeyModel>) -> bool {
    &&& forall|i: int| 0 <= i < ks.len() ==> key_wf(#[trigger] ks[i])
    &&& forall|i: int| 0 <= i < ks.len() - 1 ==> #[trigger] may_follow(ks[i], ks[i + 1])
}

/// Key `b` may follow key `a`: after a non-spacing key, the next key does not carry the dependency
/// modifier.
pub open spec fn may_follow(a: KeyModel, b: KeyModel) -> bool {
    a is NsKey ==> first_modifier(b) != NS_KEY_DEPENDENCY_MODIFIER
}

proof fn lemma_key_len(k: KeyModel)
    ensures
        key_bytes(k).len() >= 16,
        key_bytes(k).len() == 16 + match k {
            KeyModel::Key(_) => 0int,
            KeyModel::NsKey(n) => 16 * n.dependent_keys.len() as int,
        },
{
    match k {
        KeyModel::Key(d) => {},
        KeyModel::NsKey(n) => {
            lemma_descriptors_len(n.dependent_keys);
        },
    }
}

proof fn lemma_key_at(s: Seq<u8>, pos: int, k: KeyModel)
    requires
        key_wf(k),
        bytes_at(s, pos, key_bytes(k)),
        k is NsKey ==> !is_dependent_descriptor_at(s, pos + key_bytes(k).len()),
    ensures
        parse_key(s, pos) == Ok::<(KeyModel, int), ParseError>((k, pos + key_bytes(k).len())),
{
    lemma_key_len(k);
    match k {
        KeyModel::Key(d) => {
            lemma_descriptor_at(s, pos, d);
        },
        KeyModel::NsKey(n) => {
            lemma_bytes_at_split(s, pos, descriptor_bytes(n.descriptor), descriptors_bytes(n.dependent_keys));
            lemma_descriptor_at(s, pos, n.descriptor);
            lemma_dependents_at(s, pos + 16, n.dependent_keys);
        },
    }
}

/// Plain keys take sixteen bytes each.
pub proof fn lemma_plain_keys_bytes_len(ks: Seq<KeyModel>)
    requires
        forall|i: int| 0 <= i < ks.len() ==> #[trigger] ks[i] is Key,
    ensures
        keys_bytes(ks).len() == 16 * ks.len(),
    decreases ks.len(),
{
    if ks.len() > 0 {
        lemma_flatten_first(ks, |k: KeyModel| key_bytes(k));
        assert(ks[0] is Key);
        assert forall|i: int| 0 <= i < ks.drop_first().len() implies #[trigger] ks.drop_first()[i] is Key by {
            assert(ks.drop_first()[i] == ks[i + 1]);
        }
        lemma_plain_keys_bytes_len(ks.drop_first());
    }
}

/// The keys of `ks` read back when the non-spacing key that may end them is not followed, at `end`,
/// by bytes that read as a dependent descriptor.
proof fn lemma_keys_at(s: Seq<u8>, base: int, pos: int, ks: Seq<KeyModel>)
    requires
        keys_wf(ks),
        base <= pos,
        bytes_at(s, pos, keys_bytes(ks)),
        ks.len() > 0 && ks.last() is NsKey ==> !is_dependent_descriptor_at(
            s,
            pos + keys_bytes(ks).len(),
        ),
    ensures
        parse_keys(s, base, pos, (pos - base) + keys_bytes(ks).len()) == Ok::<
            (Seq<KeyModel>, int),
            ParseError,
        >((ks, pos + keys_bytes(ks).len())),
    decreases ks.len(),
{
    let limit = (pos - base) + keys_bytes(ks).len();
    if ks.len() == 0 {
        assert(keys_bytes(ks) =~= Seq::<u8>::empty());
        assert(ks =~= Seq::<KeyModel>::empty());
    } else {
        let f = |k: KeyModel| key_bytes(k);
        lemma_flatten_first(ks, f);
        let k0 = ks[0];
        let rest = ks.drop_first();
        lemma_bytes_at_split(s, pos, key_bytes(k0), keys_bytes(rest));
        lemma_key_len(k0);
        let next = pos + key_bytes(k0).len();
        assert(keys_wf(rest)) by {
            assert forall|i: int| 0 <= i < rest.len() implies key_wf(#[trigger] rest[i]) by {
                assert(rest[i] == ks[i + 1]);
            }
            assert forall|i: int| 0 <= i < rest.len() - 1 implies #[trigger] may_follow(
                rest[i],
                rest[i + 1],
            ) by {
                assert(rest[i] == ks[i + 1]);
                assert(rest[i + 1] == ks[i + 2]);
                assert(may_follow(ks[i + 1], ks[i + 2]));
            }
        }
        if k0 is NsKey {
            if rest.len() > 0 {
                let k1 = rest[0];
                assert(k1 == ks[1]);
                assert(key_wf(ks[1]));
                assert(ks[0] is NsKey);
                assert(may_follow(ks[0], ks[1]));
                lemma_flatten_first(rest, f);
                lemma_bytes_at_split(s, next, key_bytes(k1), keys_bytes(rest.drop_first()));
                match k1 {
                    KeyModel::Key(d) => {
                        lemma_descriptor_at(s, next, d);
                    },
                    KeyModel::NsKey(n) => {
                        lemma_bytes_at_split(
                            s,
                            next,
                            descriptor_bytes(n.descriptor),
                            descriptors_bytes(n.dependent_keys),
                        );
                        lemma_descriptor_at(s, next, n.descriptor);
                    },
                }
            } else {
                assert(ks.last() == k0);
                assert(keys_bytes(rest) =~= Seq::<u8>::empty());
            }
        }
        assert(key_wf(ks[0]));
        lemma_key_at(s, pos, k0);
        if rest.len() > 0 {
            assert(rest.last() == ks.last());
        }
        lemma_keys_at(s, base, next, rest);
        assert(seq![k0] + rest =~= ks);
    }
}

/// A description that reads back as written: its language holds no space and neither part holds a
/// NUL character.
pub open spec fn description_wf(d: DescriptionModel) -> bool {
    !d.language.contains(' ') && !d.language.contains('\0') && !d.description.contains('\0')
}

proof fn lemma_units_at(s: Seq<u8>, pos: int, units: Seq<u16>)
    requires
        !units.contains(0u16),
        bytes_at(s, pos, units_bytes(units.push(0u16))),
    ensures
        parse_units(s, pos) == Ok::<(Seq<u16>, int), ParseError>(
            (units, pos + 2 * (units.len() + 1)),
        ),
    decreases units.len(),
{
    let f = |u: u16| u16_bytes(u);
    let all = units.push(0u16);
    lemma_flatten_first(all, f);
    lemma_bytes_at_split(s, pos, u16_bytes(all[0]), units_bytes(all.drop_first()));
    lemma_u16_at(s, pos, all[0]);
    assert(pos + 2 <= s.len());
    if units.len() == 0 {
        assert(all[0] == 0u16);
        assert(units =~= Seq::<u16>::empty());
    } else {
        assert(units[0] != 0u16) by {
            assert(units.contains(units[0]));
        }
        let rest = units.drop_first();
        assert(all.drop_first() =~= rest.push(0u16));
        assert(!rest.contains(0u16)) by {
            if rest.contains(0u16) {
                let i = choose|i: int| 0 <= i < rest.len() && rest[i] == 0u16;
                assert(units[i + 1] == 0u16);
            }
        }
        assert(all[0] == units[0]);
        assert(le_u16(s, pos) != 0);
        lemma_units_at(s, pos + 2, rest);
        assert(seq![units[0]] + rest =~= units);


    }
}

pub(crate) proof fn lemma_units_bytes_len(units: Seq<u16>)
    ensures
        units_bytes(units).len() == 2 * units.len(),
    decreases units.len(),
{
    if units.len() > 0 {
        lemma_flatten_first(units, |u: u16| u16_bytes(u));
        lemma_units_bytes_len(units.drop_first());
    }
}

proof fn lemma_description_at(s: Seq<u8>, pos: int, d: DescriptionModel)
    requires
        description_wf(d),
        bytes_at(s, pos, description_bytes(d)),
    ensures
        parse_description(s, pos) == Ok::<(DescriptionModel, int), ParseError>(
            (d, pos + description_bytes(d).len()),
        ),
{
    let cs = d.language + seq![' '] + d.description;
    let units = utf16_encode(cs);
    assert(!cs.contains('\0')) by {
        if cs.contains('\0') {
            let i = choose|i: int| 0 <= i < cs.len() && cs[i] == '\0';
            if i < d.language.len() {
                assert(d.language[i] == '\0');
            } else if i == d.language.len() {
            } else {
                assert(d.description[i - d.language.len() - 1] == '\0');
            }
        }
    }
    lemma_utf16_encode_no_zero(cs);
    assert(description_units(d) == units.push(0u16));
    lemma_units_at(s, pos, units);
    lemma_units_bytes_len(units.push(0u16));
    lemma_utf16_decode_encode(cs);
    let i = d.language.len() as int;
    assert(is_first_space(cs, i)) by {
        assert forall|j: int| 0 <= j < i implies cs[j] != ' ' by {
            assert(cs[j] == d.language[j]);
            assert(d.language.contains(d.language[j]));
        }
    }
    let k = choose|k: int| is_first_space(cs, k);
    assert(k == i) by {
        if k < i {
            assert(cs[k] != ' ');
        }
        if k > i {
            assert(cs[i] != ' ');
        }
    }
    assert(cs.take(i) =~= d.language);
    assert(cs.skip(i + 1) =~= d.description);
    assert(split_at_first_space(cs) == Some((d.language, d.description)));
}

proof fn lemma_descriptions_at(s: Seq<u8>, pos: int, ds: Seq<DescriptionModel>)
    requires
        forall|i: int| 0 <= i < ds.len() ==> description_wf(#[trigger] ds[i]),
        bytes_at(s, pos, descriptions_bytes(ds)),
    ensures
        parse_descriptions(s, pos, ds.len()) == Ok::<(Seq<DescriptionModel>, int), ParseError>(
            (ds, pos + descriptions_bytes(ds).len()),
        ),
    decreases ds.len(),
{
    if ds.len() == 0 {
        assert(descriptions_bytes(ds) =~= Seq::<u8>::empty());
        assert(ds =~= Seq::<DescriptionModel>::empty());
    } else {
        let f = |d: DescriptionModel| description_bytes(d);
        lemma_flatten_first(ds, f);
        let rest = ds.drop_first();
        lemma_bytes_at_split(s, pos, description_bytes(ds[0]), descriptions_bytes(rest));
        assert(description_wf(ds[0]));
        lemma_description_at(s, pos, ds[0]);
        assert forall|i: int| 0 <= i < rest.len() implies description_wf(#[trigger] rest[i]) by {
            assert(rest[i] == ds[i + 1]);
        }
        let next = pos + description_bytes(ds[0]).len();
        lemma_descriptions_at(s, next, rest);
        assert(seq![ds[0]] + rest =~= ds);
        assert((ds.len() - 1) as nat == rest.len());

    }
}

/// A layout that reads back as written: its keys and descriptions read back, there are fewer than
/// 0x10000 descriptions, and its key section ends below 4 GiB.
pub open spec fn layout_wf(l: LayoutModel) -> bool {
    &&& keys_wf(l.keys)
    &&& forall|i: int| 0 <= i < l.descriptions.len() ==> description_wf(#[trigger] l.descriptions[i])
    &&& l.descriptions.len() < 0x10000
    &&& 23 + keys_bytes(l.keys).len() < 0x1_0000_0000
}

/// Where the layout written at `pos` in `s` ends with a non-spacing key, the bytes after its keys
/// do not read as a dependent descriptor (reading looks ahead for more dependents there).
pub open spec fn layout_lookahead_ok(l: LayoutModel, s: Seq<u8>, pos: int) -> bool {
    l.keys.len() > 0 && l.keys.last() is NsKey ==> !is_dependent_descriptor_at(
        s,
        pos + 23 + keys_bytes(l.keys).len(),
    )
}

#[verifier::spinoff_prover]
#[verifier::rlimit(40)]
proof fn lemma_layout_at(s: Seq<u8>, pos: int, l: LayoutModel)
    requires
        layout_wf(l),
        bytes_at(s, pos, layout_bytes(l)),
        layout_lookahead_ok(l, s, pos),
    ensures
        parse_layout(s, pos) == Ok::<(LayoutModel, int), ParseError>(
            (l, pos + layout_bytes(l).len()),
        ),
{
    let kb = keys_bytes(l.keys);
    let db = descriptions_bytes(l.descriptions);
    let total = 23 + kb.len() + 2 + db.len();
    let a = u16_bytes((total % 0x10000) as u16);
    let g = guid_bytes(l.guid);
    let so = u32_bytes(((23 + kb.len()) % 0x1_0000_0000) as u32);
    let c = seq![((kb.len() / 16) % 256) as u8];
    let n = u16_bytes((l.descriptions.len() % 0x10000) as u16);
    assert(layout_bytes(l) == a + g + so + c + kb + n + db);
    lemma_bytes_at_split(s, pos, a + g + so + c + kb + n, db);
    lemma_bytes_at_split(s, pos, a + g + so + c + kb, n);
    lemma_bytes_at_split(s, pos, a + g + so + c, kb);
    lemma_bytes_at_split(s, pos, a + g + so, c);
    lemma_bytes_at_split(s, pos, a + g, so);
    lemma_bytes_at_split(s, pos, a, g);
    lemma_guid_at(s, pos + 2, l.guid);
    lemma_u32_at(s, pos + 18, ((23 + kb.len()) % 0x1_0000_0000) as u32);
    assert(le_u32(s, pos + 18) == 23 + kb.len());
    lemma_keys_at(s, pos, pos + 23, l.keys);
    let kend = pos + 23 + kb.len();
    lemma_u16_at(s, kend, (l.descriptions.len() % 0x10000) as u16);
    assert(le_u16(s, kend) as nat == l.descriptions.len());
    lemma_descriptions_at(s, kend + 2, l.descriptions);
}

/// Each layout of `ls`, written one after the other from `pos` in `s`, meets its lookahead condition.
pub open spec fn layouts_lookahead_ok(ls: Seq<LayoutModel>, s: Seq<u8>, pos: int) -> bool
    decreases ls.len(),
{
    if ls.len() == 0 {
        true
    } else {
        layout_lookahead_ok(ls[0], s, pos) && layouts_lookahead_ok(
            ls.drop_first(),
            s,
            pos + layout_bytes(ls[0]).len(),
        )
    }
}

proof fn lemma_layouts_at(s: Seq<u8>, pos: int, ls: Seq<LayoutModel>)
    requires
        forall|i: int| 0 <= i < ls.len() ==> layout_wf(#[trigger] ls[i]),
        bytes_at(s, pos, layouts_bytes(ls)),
        layouts_lookahead_ok(ls, s, pos),
    ensures
        parse_layouts(s, pos, ls.len()) == Ok::<(Seq<LayoutModel>, int), ParseError>(
            (ls, pos + layouts_bytes(ls).len()),
        ),
    decreases ls.len(),
{
    if ls.len() == 0 {
        assert(layouts_bytes(ls) =~= Seq::<u8>::empty());
        assert(ls =~= Seq::<LayoutModel>::empty());
    } else {
        let f = |l: LayoutModel| layout_bytes(l);
        lemma_flatten_first(ls, f);
        let rest = ls.drop_first();
        lemma_bytes_at_split(s, pos, layout_bytes(ls[0]), layouts_bytes(rest));
        assert(layout_wf(ls[0]));
        lemma_layout_at(s, pos, ls[0]);
        assert forall|i: int| 0 <= i < rest.len() implies layout_wf(#[trigger] rest[i]) by {
            assert(rest[i] == ls[i + 1]);
        }
        lemma_layouts_at(s, pos + layout_bytes(ls[0]).len(), rest);
        assert(seq![ls[0]] + rest =~= ls);
        assert((ls.len() - 1) as nat == rest.len());
    }
}

/// A keyboard package that reads back as written: fewer than 0x10000 layouts, each reading back.
pub open spec fn pkg_wf(p: PkgModel) -> bool {
    &&& p.layouts.len() < 0x10000
    &&& forall|i: int| 0 <= i < p.layouts.len() ==> layout_wf(#[trigger] p.layouts[i])
}

proof fn lemma_pkg_at(s: Seq<u8>, pos: int, p: PkgModel)
    requires
        pkg_wf(p),
        bytes_at(s, pos, pkg_bytes(p)),
        layouts_lookahead_ok(p.layouts, s, pos + 6),
    ensures
        parse_pkg(s, pos) == Ok::<(PkgModel, int), ParseError>((p, pos + pkg_bytes(p).len())),
{
    let lb = layouts_bytes(p.layouts);
    let x = (6 + lb.len()) % 0x0100_0000;
    let hv = (0x0900_0000 + x) as u32;
    let nv = (p.layouts.len() % 0x10000) as u16;
    assert(le_u32(s, pos) == hv && le_u16(s, pos + 4) == nv && bytes_at(s, pos + 6, lb)
        && pkg_bytes(p).len() == 6 + lb.len()) by {
        let h = u32_bytes(hv);
        let n = u16_bytes(nv);
        assert(pkg_bytes(p) == h + n + lb);
        lemma_bytes_at_split(s, pos, h + n, lb);
        lemma_bytes_at_split(s, pos, h, n);
        lemma_u32_at(s, pos, hv);
        lemma_u16_at(s, pos + 4, nv);
    }
    assert(hv / 0x0100_0000 == 9) by (nonlinear_arith)
        requires
            hv == 0x0900_0000 + x,
            0 <= x < 0x0100_0000,
    ;
    assert(nv == p.layouts.len());
    lemma_layouts_at(s, pos + 6, p.layouts);
}

// ---------------------------------------------------------------------------------------------
// The laws.
/// A key descriptor reads back as written, whatever follows it.
pub proof fn law_descriptor_write_read(d: HiiKeyDescriptor, rest: Seq<u8>)
    ensures
        parse_descriptor(descriptor_bytes(d) + rest, 0) == Ok::<(HiiKeyDescriptor, int), ParseError>(
            (d, 16),
        ),
{
    let s = descriptor_bytes(d) + rest;
    assert(s.subrange(0, descriptor_bytes(d).len() as int) =~= descriptor_bytes(d));
    lemma_descriptor_at(s, 0, d);
}

/// A well-formed key reads back as written when, for a non-spacing key, the bytes that follow do
/// not read as a dependent descriptor.
pub proof fn law_key_write_read(k: KeyModel, rest: Seq<u8>)
    requires
        key_wf(k),
        k is NsKey ==> !is_dependent_descriptor_at(key_bytes(k) + rest, key_bytes(k).len() as int),
    ensures
        parse_key(key_bytes(k) + rest, 0) == Ok::<(KeyModel, int), ParseError>(
            (k, key_bytes(k).len() as int),
        ),
{
    let s = key_bytes(k) + rest;
    assert(s.subrange(0, key_bytes(k).len() as int) =~= key_bytes(k));
    lemma_key_at(s, 0, k);
}

/// A description whose language holds no space and which holds no NUL character reads back as
/// written, whatever follows it.
pub proof fn law_description_write_read(d: DescriptionModel, rest: Seq<u8>)
    requires
        description_wf(d),
    ensures
        parse_description(description_bytes(d) + rest, 0) == Ok::<(DescriptionModel, int), ParseError>(
            (d, description_bytes(d).len() as int),
        ),
{
    let s = description_bytes(d) + rest;
    assert(s.subrange(0, description_bytes(d).len() as int) =~= description_bytes(d));
    lemma_description_at(s, 0, d);
}

/// A well-formed layout, written and followed by any bytes, reads back as the layout and the
/// number of bytes written, where its lookahead condition holds in those bytes.
pub proof fn law_layout_write_read(l: LayoutModel, rest: Seq<u8>)
    requires
        layout_wf(l),
        layout_lookahead_ok(l, layout_bytes(l) + rest, 0),
    ensures
        parse_layout(layout_bytes(l) + rest, 0) == Ok::<(LayoutModel, int), ParseError>(
            (l, layout_bytes(l).len() as int),
        ),
{
    let s = layout_bytes(l) + rest;
    assert(s.subrange(0, layout_bytes(l).len() as int) =~= layout_bytes(l));
    lemma_layout_at(s, 0, l);
}

/// A well-formed keyboard package, written and followed by any bytes, reads back as the package
/// and the number of bytes written, where the lookahead condition of its layouts holds.
pub proof fn law_pkg_write_read(p: PkgModel, rest: Seq<u8>)
    requires
        pkg_wf(p),
        layouts_lookahead_ok(p.layouts, pkg_bytes(p) + rest, 6),
    ensures
        parse_pkg(pkg_bytes(p) + rest, 0) == Ok::<(PkgModel, int), ParseError>(
            (p, pkg_bytes(p).len() as int),
        ),
{
    let s = pkg_bytes(p) + rest;
    assert(s.subrange(0, pkg_bytes(p).len() as int) =~= pkg_bytes(p));
    lemma_pkg_at(s, 0, p);
}

proof fn lemma_pkg_list_at(s: Seq<u8>, pl: PkgListModel)
    requires
        pkg_wf(pl.package),
        bytes_at(s, 0, pkg_list_bytes(pl)),
        layouts_lookahead_ok(pl.package.layouts, s, 26),
    ensures
        parse_pkg_list(s, 0) == Ok::<(PkgListModel, int), ParseError>(
            (pl, pkg_list_bytes(pl).len() as int),
        ),
{
    lemma_pkg_list_parts(s, pl);
    lemma_guid_at(s, 0, pl.guid);
    lemma_pkg_at(s, 20, pl.package);
}

proof fn lemma_pkg_list_parts(s: Seq<u8>, pl: PkgListModel)
    requires
        bytes_at(s, 0, pkg_list_bytes(pl)),
    ensures
        bytes_at(s, 0, guid_bytes(pl.guid)),
        bytes_at(s, 20, pkg_bytes(pl.package)),
        pkg_list_bytes(pl).len() == 24 + pkg_bytes(pl.package).len(),
{
    let pb = pkg_bytes(pl.package);
    let g = guid_bytes(pl.guid);
    let t = u32_bytes(((24 + pb.len()) % 0x1_0000_0000) as u32);
    let e = u32_bytes(0xDF00_0004);
    assert(pkg_list_bytes(pl) == g + t + pb + e);
    lemma_bytes_at_split(s, 0, g + t + pb, e);
    lemma_bytes_at_split(s, 0, g + t, pb);
    lemma_bytes_at_split(s, 0, g, t);
}

/// A package list whose keyboard package is well formed, written and followed by any bytes, reads
/// back as the package list and the number of bytes written, where the lookahead condition of its
/// layouts holds.
pub proof fn law_pkg_list_write_read(pl: PkgListModel, rest: Seq<u8>)
    requires
        pkg_wf(pl.package),
        layouts_lookahead_ok(pl.package.layouts, pkg_list_bytes(pl) + rest, 26),
    ensures
        parse_pkg_list(pkg_list_bytes(pl) + rest, 0) == Ok::<(PkgListModel, int), ParseError>(
            (pl, pkg_list_bytes(pl).len() as int),
        ),
{
    let s = pkg_list_bytes(pl) + rest;
    assert(s.subrange(0, pkg_list_bytes(pl).len() as int) =~= pkg_list_bytes(pl));
    lemma_pkg_list_at(s, pl);
}

} // verus!
