use struct_cache_field::embed::add_cache_field;
use struct_cache_field::model::CacheError;
use struct_cache_field::model::FieldDecl;
use struct_cache_field::model::FieldsKind;
use struct_cache_field::model::GenericParam;
use struct_cache_field::model::GenericsDecl;
use struct_cache_field::model::ImplBlock;
use struct_cache_field::model::ImplItem;
use struct_cache_field::model::MethodDecl;
use struct_cache_field::model::StructDecl;
use struct_cache_field::model::TypePath;
use struct_cache_field::registry::CacheRegistry;
use struct_cache_field::transform::impl_cached_method;

fn method(vis: &str, name: &str, params: &str, ret: &str, body: &str) -> ImplItem {
    ImplItem::Method(MethodDecl {
        vis: vis.to_string(),
        name: name.to_string(),
        params: params.to_string(),
        return_type: Some(ret.to_string()),
        body: body.to_string(),
    })
}

fn ty_param(ident: &str) -> GenericParam {
    GenericParam::Type { ident: ident.to_string(), text: ident.to_string() }
}

fn generics(params: Vec<GenericParam>, where_clause: Option<&str>) -> GenericsDecl {
    GenericsDecl { params, where_clause: where_clause.map(|w| w.to_string()) }
}

fn block(name: &str, g: GenericsDecl, items: Vec<ImplItem>) -> ImplBlock {
    ImplBlock {
        self_ty: TypePath { segments: vec![name.to_string()] },
        trait_name: None,
        generics: g,
        items,
    }
}

fn field(name: &str, ty: &str) -> FieldDecl {
    FieldDecl { vis: String::new(), name: name.to_string(), ty: ty.to_string() }
}

fn strukt(name: &str, g: GenericsDecl, fields: Vec<FieldDecl>) -> StructDecl {
    StructDecl {
        vis: String::new(),
        name: name.to_string(),
        generics: g,
        fields: FieldsKind::Named(fields),
    }
}

fn field_views(fields: &[FieldDecl]) -> Vec<(String, String)> {
    fields.iter().map(|f| (f.name.clone(), f.ty.clone())).collect()
}

#[test]
fn embed_basic_type() {
    let mut registry = CacheRegistry::new();
    let b = block(
        "Hoge",
        generics(Vec::new(), None),
        vec![method("pub", "two_times_x", "(& self)", "u64", "{ 2 * self.x }")],
    );
    impl_cached_method(&String::new(), &b, &mut registry).unwrap();

    let s = strukt("Hoge", generics(Vec::new(), None), vec![field("x", "u64")]);
    let out = add_cache_field(&String::new(), &s, &mut registry).unwrap();

    assert_eq!(out.companion.name, "__struct_cache_field__HogeCacheFields");
    assert_eq!(out.companion.params, "");
    assert!(out.companion.where_clause.is_none());
    assert_eq!(
        field_views(&out.companion.fields),
        vec![("two_times_x".to_string(), ":: core :: cell :: OnceCell < u64 >".to_string())]
    );
    match out.amended.fields {
        FieldsKind::Named(fs) => assert_eq!(
            field_views(&fs),
            vec![
                ("x".to_string(), "u64".to_string()),
                (
                    "__cache_fields__".to_string(),
                    "__struct_cache_field__HogeCacheFields".to_string()
                ),
            ]
        ),
        FieldsKind::Unnamed => panic!(),
    }
}

#[test]
fn embed_generic_type_with_where_clause() {
    let mut registry = CacheRegistry::new();
    let w = Some("where T : ToString + From < String >");
    let b = block(
        "Hoge",
        generics(vec![ty_param("T")], w),
        vec![method("pub", "two_times_t", "(& self)", "T", "{ self.t.to_string() }")],
    );
    impl_cached_method(&String::new(), &b, &mut registry).unwrap();

    let s = strukt(
        "Hoge",
        generics(vec![ty_param("T")], w),
        vec![field("x", "u64"), field("t", "T")],
    );
    let out = add_cache_field(&String::new(), &s, &mut registry).unwrap();

    assert_eq!(out.companion.params, "< T >");
    assert_eq!(
        out.companion.where_clause.as_deref(),
        Some("where T : ToString + From < String >")
    );
    assert_eq!(
        field_views(&out.companion.fields),
        vec![
            ("two_times_t".to_string(), ":: core :: cell :: OnceCell < T >".to_string()),
            ("_phantom0".to_string(), ":: core :: marker :: PhantomData < T >".to_string()),
        ]
    );
    match out.amended.fields {
        FieldsKind::Named(fs) => assert_eq!(
            fs.last().map(|f| (f.name.clone(), f.ty.clone())).unwrap(),
            (
                "__cache_fields__".to_string(),
                "__struct_cache_field__HogeCacheFields < T >".to_string()
            )
        ),
        FieldsKind::Unnamed => panic!(),
    }
}

#[test]
fn embed_filters_lifetime_and_const_parameters() {
    let mut registry = CacheRegistry::new();
    let w = Some("where T : ToString + From < String >");
    let params = || {
        vec![
            GenericParam::Lifetime { text: "'a".to_string() },
            ty_param("T"),
            GenericParam::Const { text: "const N : usize".to_string() },
        ]
    };
    let b = block(
        "Hoge",
        generics(params(), w),
        vec![method("pub", "n_times_t", "(& self)", "T", "{ self.t.to_string() }")],
    );
    impl_cached_method(&String::new(), &b, &mut registry).unwrap();

    let s = strukt(
        "Hoge",
        generics(params(), w),
        vec![field("x", "u64"), field("t", "& 'a T")],
    );
    let out = add_cache_field(&String::new(), &s, &mut registry).unwrap();

    // Only the type parameter survives into the companion's parameter list;
    // the lifetime and const parameters were checked for equality but are
    // not represented.
    assert_eq!(out.companion.params, "< T >");
    assert_eq!(
        field_views(&out.companion.fields),
        vec![
            ("n_times_t".to_string(), ":: core :: cell :: OnceCell < T >".to_string()),
            ("_phantom0".to_string(), ":: core :: marker :: PhantomData < T >".to_string()),
        ]
    );
}

#[test]
fn embed_numbers_markers_per_type_parameter() {
    let mut registry = CacheRegistry::new();
    let w = Some("where T : ToString + From < String >");
    let b = block(
        "Hoge",
        generics(vec![ty_param("T"), ty_param("S")], w),
        vec![method("pub", "two_times_t", "(& self)", "T", "{ self.t.to_string() }")],
    );
    impl_cached_method(&String::new(), &b, &mut registry).unwrap();

    let s = strukt(
        "Hoge",
        generics(vec![ty_param("T"), ty_param("S")], w),
        vec![field("x", "u64"), field("t", "T"), field("s", "S")],
    );
    let out = add_cache_field(&String::new(), &s, &mut registry).unwrap();

    assert_eq!(out.companion.params, "< T , S >");
    assert_eq!(
        field_views(&out.companion.fields),
        vec![
            ("two_times_t".to_string(), ":: core :: cell :: OnceCell < T >".to_string()),
            ("_phantom0".to_string(), ":: core :: marker :: PhantomData < T >".to_string()),
            ("_phantom1".to_string(), ":: core :: marker :: PhantomData < S >".to_string()),
        ]
    );
}

#[test]
fn marker_names_render_multi_digit_positions() {
    let mut s = String::new();
    struct_cache_field::render::push_decimal(0, &mut s);
    assert_eq!(s, "0");
    let mut s = String::new();
    struct_cache_field::render::push_decimal(1203, &mut s);
    assert_eq!(s, "1203");
    let mut s = "_phantom".to_string();
    struct_cache_field::render::push_decimal(10, &mut s);
    assert_eq!(s, "_phantom10");
}

#[test]
fn embed_rejects_unnamed_fields() {
    let mut registry = CacheRegistry::new();
    let s = StructDecl {
        vis: String::new(),
        name: "Hoge".to_string(),
        generics: generics(Vec::new(), None),
        fields: FieldsKind::Unnamed,
    };
    let r = add_cache_field(&String::new(), &s, &mut registry);
    assert!(matches!(r, Err(CacheError::UnnamedFields)));
}

#[test]
fn embed_rejects_nonempty_arguments() {
    let mut registry = CacheRegistry::new();
    let s = strukt("Hoge", generics(Vec::new(), None), vec![field("x", "u64")]);
    let r = add_cache_field(&"extra".to_string(), &s, &mut registry);
    assert!(matches!(r, Err(CacheError::UnexpectedArguments)));
}

#[test]
fn embed_without_registration_fails() {
    let mut registry = CacheRegistry::new();
    let s = strukt("Hoge", generics(Vec::new(), None), vec![field("x", "u64")]);
    let r = add_cache_field(&String::new(), &s, &mut registry);
    assert!(matches!(r, Err(CacheError::EntryMissing)));
}

#[test]
fn embed_rejects_differing_type_parameters() {
    let mut registry = CacheRegistry::new();
    let w = Some("where T : ToString + From < String >");
    let b = block(
        "Hoge",
        generics(vec![ty_param("T")], w),
        vec![method("pub", "two_times_x", "(& self)", "T", "{ self.x.to_string() }")],
    );
    impl_cached_method(&String::new(), &b, &mut registry).unwrap();

    let sw = Some("where S : ToString + From < String >");
    let s = strukt(
        "Hoge",
        generics(vec![ty_param("S")], sw),
        vec![field("x", "u64"), field("t", "S")],
    );
    match add_cache_field(&String::new(), &s, &mut registry) {
        Err(CacheError::GenericsMismatch { registered, presented }) => {
            assert_eq!(registered.params, "< T >");
            assert_eq!(presented.params, "< S >");
        }
        _ => panic!("expected GenericsMismatch"),
    }
}

#[test]
fn embed_rejects_differing_where_clause() {
    let mut registry = CacheRegistry::new();
    let b = block(
        "Hoge",
        generics(vec![ty_param("T")], Some("where T : ToString + From < String >")),
        vec![method("pub", "two_times_x", "(& self)", "T", "{ self.x.to_string() }")],
    );
    impl_cached_method(&String::new(), &b, &mut registry).unwrap();

    let s = strukt(
        "Hoge",
        generics(vec![ty_param("T")], Some("where T : ToString")),
        vec![field("x", "u64"), field("t", "T")],
    );
    match add_cache_field(&String::new(), &s, &mut registry) {
        Err(CacheError::GenericsMismatch { registered, presented }) => {
            assert_eq!(registered.params, presented.params);
            assert_eq!(
                registered.where_clause.as_deref(),
                Some("where T : ToString + From < String >")
            );
            assert_eq!(presented.where_clause.as_deref(), Some("where T : ToString"));
        }
        _ => panic!("expected GenericsMismatch"),
    }
}

#[test]
fn two_scopes_with_same_type_name_embed_independently() {
    // Two types named `Hoge` in separate scopes, with differently shaped
    // method blocks: with each block's registration consumed by its own
    // type definition before the next scope registers, both pairs succeed
    // and neither sees the other's slots.
    let mut registry = CacheRegistry::new();

    let b1 = block(
        "Hoge",
        generics(Vec::new(), None),
        vec![method("pub", "two_times_x", "(& self)", "u64", "{ 2 * self.x }")],
    );
    impl_cached_method(&String::new(), &b1, &mut registry).unwrap();
    let s1 = strukt("Hoge", generics(Vec::new(), None), vec![field("x", "u64")]);
    let out1 = add_cache_field(&String::new(), &s1, &mut registry).unwrap();

    let b2 = block(
        "Hoge",
        generics(Vec::new(), None),
        vec![method("pub", "three_times_y", "(& self)", "u64", "{ 3 * self.y }")],
    );
    impl_cached_method(&String::new(), &b2, &mut registry).unwrap();
    let s2 = strukt("Hoge", generics(Vec::new(), None), vec![field("y", "u64")]);
    let out2 = add_cache_field(&String::new(), &s2, &mut registry).unwrap();

    assert_eq!(
        field_views(&out1.companion.fields),
        vec![("two_times_x".to_string(), ":: core :: cell :: OnceCell < u64 >".to_string())]
    );
    assert_eq!(
        field_views(&out2.companion.fields),
        vec![("three_times_y".to_string(), ":: core :: cell :: OnceCell < u64 >".to_string())]
    );
}
