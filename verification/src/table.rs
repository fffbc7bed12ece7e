//! The fixed schema paths, as interned handle sequences.
//!
//! The collector matches the rolling ancestor path against these tables on
//! every event.  They are built once, eagerly, when the collector is created,
//! so the interner is already warm before the first event arrives.

use vstd::prelude::*;

use crate::interner::{model_wf, spec_intern, StrRef, StringInterner, MAX_SYMBOLS};

verus! {

/// The instance-held tables of fixed absolute paths (container prefix plus
/// schema-relative path) and the one fixed suffix (the `localId` leaf).
pub struct PathTable {
    /// Container boundary: collection root plus member wrapper.
    pub feature_member_prefix: Vec<StrRef>,
    /// The Address element carrying cross-reference attributes.
    pub component: Vec<StrRef>,
    /// The coded designator-type element under an Address locator.
    pub designator_type: Vec<StrRef>,
    /// The designator-value element under an Address locator.
    pub designator_value: Vec<StrRef>,
    /// The cross-reference element of an AddressAreaName.
    pub situated_in_address_area: Vec<StrRef>,
    /// The cross-reference element of a ThoroughfareName.
    pub situated_in_thoroughfare: Vec<StrRef>,
    /// The name leaf of an AdminUnitName.
    pub name_admin_unit: Vec<StrRef>,
    /// The name leaf of an AddressAreaName.
    pub name_address_area: Vec<StrRef>,
    /// The name leaf of a ThoroughfareName.
    pub name_thoroughfare: Vec<StrRef>,
    /// The suffix identifying the `localId` leaf of any record kind.
    pub local_id_suffix: Vec<StrRef>,
}

/// Abstraction of the table: each path as a handle sequence.
#[verifier::ext_equal]
pub struct PathTableView {
    pub feature_member_prefix: Seq<StrRef>,
    pub component: Seq<StrRef>,
    pub designator_type: Seq<StrRef>,
    pub designator_value: Seq<StrRef>,
    pub situated_in_address_area: Seq<StrRef>,
    pub situated_in_thoroughfare: Seq<StrRef>,
    pub name_admin_unit: Seq<StrRef>,
    pub name_address_area: Seq<StrRef>,
    pub name_thoroughfare: Seq<StrRef>,
    pub local_id_suffix: Seq<StrRef>,
}

impl View for PathTable {
    type V = PathTableView;

    open spec fn view(&self) -> PathTableView {
        PathTableView {
            feature_member_prefix: self.feature_member_prefix@,
            component: self.component@,
            designator_type: self.designator_type@,
            designator_value: self.designator_value@,
            situated_in_address_area: self.situated_in_address_area@,
            situated_in_thoroughfare: self.situated_in_thoroughfare@,
            name_admin_unit: self.name_admin_unit@,
            name_address_area: self.name_address_area@,
            name_thoroughfare: self.name_thoroughfare@,
            local_id_suffix: self.local_id_suffix@,
        }
    }
}

/// The handle `sym` resolves in `m` to the name `name`.
pub open spec fn sym_resolves(m: Seq<Seq<char>>, sym: StrRef, name: Seq<char>) -> bool {
    (sym.0 as int) < m.len() && m[sym.0 as int] == name
}

/// Every handle of `p` resolves in `m` to the corresponding name of `names`.
pub open spec fn path_resolves(m: Seq<Seq<char>>, p: Seq<StrRef>, names: Seq<Seq<char>>) -> bool {
    &&& p.len() == names.len()
    &&& forall|i: int| 0 <= i < p.len() ==> sym_resolves(m, p[i], names[i])
}

/// The table holds exactly the schema's fixed paths, resolved through the
/// interner model `m`.
pub open spec fn table_wf(t: PathTableView, m: Seq<Seq<char>>) -> bool {
    &&& path_resolves(
        m,
        t.feature_member_prefix,
        seq!["gml:FeatureCollection"@, "gml:featureMember"@],
    )
    &&& path_resolves(
        m,
        t.component,
        seq!["gml:FeatureCollection"@, "gml:featureMember"@, "ad:Address"@, "ad:component"@],
    )
    &&& path_resolves(
        m,
        t.designator_type,
        seq![
            "gml:FeatureCollection"@,
            "gml:featureMember"@,
            "ad:Address"@,
            "ad:locator"@,
            "ad:AddressLocator"@,
            "ad:designator"@,
            "ad:LocatorDesignator"@,
            "ad:type"@,
        ],
    )
    &&& path_resolves(
        m,
        t.designator_value,
        seq![
            "gml:FeatureCollection"@,
            "gml:featureMember"@,
            "ad:Address"@,
            "ad:locator"@,
            "ad:AddressLocator"@,
            "ad:designator"@,
            "ad:LocatorDesignator"@,
            "ad:designator"@,
        ],
    )
    &&& path_resolves(
        m,
        t.situated_in_address_area,
        seq![
            "gml:FeatureCollection"@,
            "gml:featureMember"@,
            "ad:AddressAreaName"@,
            "ad:situatedWithin"@,
        ],
    )
    &&& path_resolves(
        m,
        t.situated_in_thoroughfare,
        seq![
            "gml:FeatureCollection"@,
            "gml:featureMember"@,
            "ad:ThoroughfareName"@,
            "ad:situatedWithin"@,
        ],
    )
    &&& path_resolves(
        m,
        t.name_admin_unit,
        seq![
            "gml:FeatureCollection"@,
            "gml:featureMember"@,
            "ad:AdminUnitName"@,
            "ad:name"@,
            "gn:GeographicalName"@,
            "gn:spelling"@,
            "gn:SpellingOfName"@,
            "gn:text"@,
        ],
    )
    &&& path_resolves(
        m,
        t.name_address_area,
        seq![
            "gml:FeatureCollection"@,
            "gml:featureMember"@,
            "ad:AddressAreaName"@,
            "ad:name"@,
            "gn:GeographicalName"@,
            "gn:spelling"@,
            "gn:SpellingOfName"@,
            "gn:text"@,
        ],
    )
    &&& path_resolves(
        m,
        t.name_thoroughfare,
        seq![
            "gml:FeatureCollection"@,
            "gml:featureMember"@,
            "ad:ThoroughfareName"@,
            "ad:name"@,
            "ad:ThoroughfareNameValue"@,
            "ad:name"@,
            "gn:GeographicalName"@,
            "gn:spelling"@,
            "gn:SpellingOfName"@,
            "gn:text"@,
        ],
    )
    &&& path_resolves(
        m,
        t.local_id_suffix,
        seq!["ad:inspireId"@, "base:Identifier"@, "base:localId"@],
    )
}

/// Interning one more string keeps every existing entry in place, so an
/// already-resolved path stays resolved.
pub proof fn lemma_table_wf_preserved(t: PathTableView, m: Seq<Seq<char>>, s: Seq<char>)
    requires
        model_wf(m),
        table_wf(t, m),
    ensures
        table_wf(t, spec_intern(m, s).0),
{
    let m1 = spec_intern(m, s).0;
    assert(m.len() <= m1.len());
    assert(forall|i: int| 0 <= i < m.len() ==> m1[i] == m[i]);
}

/// Interning relied on below: grows the table by at most one entry, keeps
/// existing entries, and hands back a handle for `s`.
fn intern_step(interner: &mut StringInterner, s: &str) -> (sym: StrRef)
    requires
        old(interner).wf(),
        old(interner)@.len() < MAX_SYMBOLS,
    ensures
        final(interner).wf(),
        sym_resolves(final(interner)@, sym, s@),
        old(interner)@.len() <= final(interner)@.len() <= old(interner)@.len() + 1,
        forall|i: int| 0 <= i < old(interner)@.len() ==> final(interner)@[i] == old(interner)@[i],
{
    let r = interner.intern(s);
    match r {
        Ok(sym) => sym,
        Err(_) => {
            proof {
                assert(false);
            }
            StrRef(0)
        },
    }
}

/// The container and Address-locator names, interned.
struct AddressSymbols {
    fc: StrRef,
    fm: StrRef,
    address: StrRef,
    component: StrRef,
    locator: StrRef,
    address_locator: StrRef,
    designator: StrRef,
    locator_designator: StrRef,
    type_: StrRef,
}

fn intern_address_symbols(interner: &mut StringInterner) -> (s: AddressSymbols)
    requires
        old(interner).wf(),
        old(interner)@.len() + 10 <= MAX_SYMBOLS,
    ensures
        final(interner).wf(),
        old(interner)@.len() <= final(interner)@.len() <= old(interner)@.len() + 10,
        forall|i: int| 0 <= i < old(interner)@.len() ==> final(interner)@[i] == old(interner)@[i],
        sym_resolves(final(interner)@, s.fc, "gml:FeatureCollection"@),
        sym_resolves(final(interner)@, s.fm, "gml:featureMember"@),
        sym_resolves(final(interner)@, s.address, "ad:Address"@),
        sym_resolves(final(interner)@, s.component, "ad:component"@),
        sym_resolves(final(interner)@, s.locator, "ad:locator"@),
        sym_resolves(final(interner)@, s.address_locator, "ad:AddressLocator"@),
        sym_resolves(final(interner)@, s.designator, "ad:designator"@),
        sym_resolves(final(interner)@, s.locator_designator, "ad:LocatorDesignator"@),
        sym_resolves(final(interner)@, s.type_, "ad:type"@),
{
    let fc = intern_step(interner, "gml:FeatureCollection");
    let fm = intern_step(interner, "gml:featureMember");
    let address = intern_step(interner, "ad:Address");
    let component = intern_step(interner, "ad:component");
    let locator = intern_step(interner, "ad:locator");
    let address_locator = intern_step(interner, "ad:AddressLocator");
    let designator = intern_step(interner, "ad:designator");
    let locator_designator = intern_step(interner, "ad:LocatorDesignator");
    let type_ = intern_step(interner, "ad:type");
    AddressSymbols {
        fc,
        fm,
        address,
        component,
        locator,
        address_locator,
        designator,
        locator_designator,
        type_,
    }
}

/// The named-record and identifier names, interned.
struct NameSymbols {
    admin_unit_name: StrRef,
    address_area_name: StrRef,
    thoroughfare_name: StrRef,
    situated_within: StrRef,
    name: StrRef,
    geographical_name: StrRef,
    spelling: StrRef,
    spelling_of_name: StrRef,
    text: StrRef,
    thoroughfare_name_value: StrRef,
    inspire_id: StrRef,
    identifier: StrRef,
    local_id: StrRef,
}

#[verifier::rlimit(50)]
fn intern_name_symbols(interner: &mut StringInterner) -> (s: NameSymbols)
    requires
        old(interner).wf(),
        old(interner)@.len() + 14 <= MAX_SYMBOLS,
    ensures
        final(interner).wf(),
        old(interner)@.len() <= final(interner)@.len() <= old(interner)@.len() + 14,
        forall|i: int| 0 <= i < old(interner)@.len() ==> final(interner)@[i] == old(interner)@[i],
        sym_resolves(final(interner)@, s.admin_unit_name, "ad:AdminUnitName"@),
        sym_resolves(final(interner)@, s.address_area_name, "ad:AddressAreaName"@),
        sym_resolves(final(interner)@, s.thoroughfare_name, "ad:ThoroughfareName"@),
        sym_resolves(final(interner)@, s.situated_within, "ad:situatedWithin"@),
        sym_resolves(final(interner)@, s.name, "ad:name"@),
        sym_resolves(final(interner)@, s.geographical_name, "gn:GeographicalName"@),
        sym_resolves(final(interner)@, s.spelling, "gn:spelling"@),
        sym_resolves(final(interner)@, s.spelling_of_name, "gn:SpellingOfName"@),
        sym_resolves(final(interner)@, s.text, "gn:text"@),
        sym_resolves(final(interner)@, s.thoroughfare_name_value, "ad:ThoroughfareNameValue"@),
        sym_resolves(final(interner)@, s.inspire_id, "ad:inspireId"@),
        sym_resolves(final(interner)@, s.identifier, "base:Identifier"@),
        sym_resolves(final(interner)@, s.local_id, "base:localId"@),
{
    let admin_unit_name = intern_step(interner, "ad:AdminUnitName");
    let address_area_name = intern_step(interner, "ad:AddressAreaName");
    let thoroughfare_name = intern_step(interner, "ad:ThoroughfareName");
    let situated_within = intern_step(interner, "ad:situatedWithin");
    let name = intern_step(interner, "ad:name");
    let geographical_name = intern_step(interner, "gn:GeographicalName");
    let spelling = intern_step(interner, "gn:spelling");
    let spelling_of_name = intern_step(interner, "gn:SpellingOfName");
    let text = intern_step(interner, "gn:text");
    let thoroughfare_name_value = intern_step(interner, "ad:ThoroughfareNameValue");
    let inspire_id = intern_step(interner, "ad:inspireId");
    let identifier = intern_step(interner, "base:Identifier");
    let local_id = intern_step(interner, "base:localId");
    NameSymbols {
        admin_unit_name,
        address_area_name,
        thoroughfare_name,
        situated_within,
        name,
        geographical_name,
        spelling,
        spelling_of_name,
        text,
        thoroughfare_name_value,
        inspire_id,
        identifier,
        local_id,
    }
}

fn path_pair(a: StrRef, b: StrRef) -> (r: Vec<StrRef>)
    ensures
        r@ == seq![a, b],
{
    let mut r: Vec<StrRef> = Vec::new();
    r.push(a);
    r.push(b);
    proof {
        assert(r@ =~= seq![a, b]);
    }
    r
}

fn path_triple(a: StrRef, b: StrRef, c: StrRef) -> (r: Vec<StrRef>)
    ensures
        r@ == seq![a, b, c],
{
    let mut r: Vec<StrRef> = Vec::new();
    r.push(a);
    r.push(b);
    r.push(c);
    proof {
        assert(r@ =~= seq![a, b, c]);
    }
    r
}

fn path_quad(a: StrRef, b: StrRef, c: StrRef, d: StrRef) -> (r: Vec<StrRef>)
    ensures
        r@ == seq![a, b, c, d],
{
    let mut r: Vec<StrRef> = Vec::new();
    r.push(a);
    r.push(b);
    r.push(c);
    r.push(d);
    proof {
        assert(r@ =~= seq![a, b, c, d]);
    }
    r
}

fn path_oct(
    a: StrRef,
    b: StrRef,
    c: StrRef,
    d: StrRef,
    e: StrRef,
    f: StrRef,
    g: StrRef,
    h: StrRef,
) -> (r: Vec<StrRef>)
    ensures
        r@ == seq![a, b, c, d, e, f, g, h],
{
    let mut r: Vec<StrRef> = Vec::new();
    r.push(a);
    r.push(b);
    r.push(c);
    r.push(d);
    r.push(e);
    r.push(f);
    r.push(g);
    r.push(h);
    proof {
        assert(r@ =~= seq![a, b, c, d, e, f, g, h]);
    }
    r
}

fn path_dec(
    a: StrRef,
    b: StrRef,
    c: StrRef,
    d: StrRef,
    e: StrRef,
    f: StrRef,
    g: StrRef,
    h: StrRef,
    i: StrRef,
    j: StrRef,
) -> (r: Vec<StrRef>)
    ensures
        r@ == seq![a, b, c, d, e, f, g, h, i, j],
{
    let mut r: Vec<StrRef> = Vec::new();
    r.push(a);
    r.push(b);
    r.push(c);
    r.push(d);
    r.push(e);
    r.push(f);
    r.push(g);
    r.push(h);
    r.push(i);
    r.push(j);
    proof {
        assert(r@ =~= seq![a, b, c, d, e, f, g, h, i, j]);
    }
    r
}

impl PathTable {
    /// Intern the schema's fixed names and lay the paths out.  Needs head
    /// room in the interner for the schema's distinct names.
    #[verifier::rlimit(100)]
    pub fn build(interner: &mut StringInterner) -> (t: PathTable)
        requires
            old(interner).wf(),
            old(interner)@.len() + 24 <= MAX_SYMBOLS,
        ensures
            final(interner).wf(),
            final(interner)@.len() <= old(interner)@.len() + 24,
            forall|i: int|
                0 <= i < old(interner)@.len() ==> final(interner)@[i] == old(interner)@[i],
            table_wf(t@, final(interner)@),
    {
        let a = intern_address_symbols(interner);
        let n = intern_name_symbols(interner);
        PathTable {
            feature_member_prefix: path_pair(a.fc, a.fm),
            component: path_quad(a.fc, a.fm, a.address, a.component),
            designator_type: path_oct(
                a.fc,
                a.fm,
                a.address,
                a.locator,
                a.address_locator,
                a.designator,
                a.locator_designator,
                a.type_,
            ),
            designator_value: path_oct(
                a.fc,
                a.fm,
                a.address,
                a.locator,
                a.address_locator,
                a.designator,
                a.locator_designator,
                a.designator,
            ),
            situated_in_address_area: path_quad(
                a.fc,
                a.fm,
                n.address_area_name,
                n.situated_within,
            ),
            situated_in_thoroughfare: path_quad(
                a.fc,
                a.fm,
                n.thoroughfare_name,
                n.situated_within,
            ),
            name_admin_unit: path_oct(
                a.fc,
                a.fm,
                n.admin_unit_name,
                n.name,
                n.geographical_name,
                n.spelling,
                n.spelling_of_name,
                n.text,
            ),
            name_address_area: path_oct(
                a.fc,
                a.fm,
                n.address_area_name,
                n.name,
                n.geographical_name,
                n.spelling,
                n.spelling_of_name,
                n.text,
            ),
            name_thoroughfare: path_dec(
                a.fc,
                a.fm,
                n.thoroughfare_name,
                n.name,
                n.thoroughfare_name_value,
                n.name,
                n.geographical_name,
                n.spelling,
                n.spelling_of_name,
                n.text,
            ),
            local_id_suffix: path_triple(n.inspire_id, n.identifier, n.local_id),
        }
    }
}

} // verus!
