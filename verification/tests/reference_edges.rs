use next_core::chunk::ChunkingType;
use next_core::merge_tag::{next_server_utility_merge_tag, NEXT_SERVER_UTILITY_MERGE_TAG};
use next_core::reference::{
    ModuleReference, ReferenceKind, COMPONENT_WRAPPER_PREFIX, SHARED_UTILITY_PREFIX,
};
use next_core::resolve::ModuleResolveResult;

fn shared(merge_tag: Option<&str>) -> ChunkingType {
    ChunkingType::Shared {
        inherit_async: true,
        merge_tag: merge_tag.map(String::from),
    }
}

#[test]
fn component_wrapper_is_described_and_classified() {
    let edge = ModuleReference::new("pages/about.tsx", ReferenceKind::ComponentWrapper);
    assert_eq!(
        edge.describe(edge.target()),
        "Next.js Server Component pages/about.tsx"
    );
    assert_eq!(
        edge.describe(edge.target()),
        format!("{} pages/about.tsx", COMPONENT_WRAPPER_PREFIX)
    );
    assert_eq!(edge.classify(), shared(None));
}

#[test]
fn shared_utilities_carry_one_tag_and_keep_their_targets() {
    let a = ModuleReference::new("utils/a.ts", ReferenceKind::SharedUtility);
    let b = ModuleReference::new("utils/b.ts", ReferenceKind::SharedUtility);
    let (tag_a, tag_b) = match (a.classify(), b.classify()) {
        (
            ChunkingType::Shared { merge_tag: Some(tag_a), inherit_async: true },
            ChunkingType::Shared { merge_tag: Some(tag_b), inherit_async: true },
        ) => (tag_a, tag_b),
        other => panic!("not shared under a tag: {:?}", other),
    };
    assert_eq!(tag_a, tag_b);
    assert_eq!(tag_a, "next-server-utility");
    assert_eq!(a.resolve().primary, vec!["utils/a.ts"]);
    assert_eq!(b.resolve().primary, vec!["utils/b.ts"]);
    assert_ne!(a.resolve(), b.resolve());
}

#[test]
fn kinds_differ_over_one_target() {
    let target: u32 = 17;
    let wrapper = ModuleReference::new(target, ReferenceKind::ComponentWrapper);
    let utility = ModuleReference::new(target, ReferenceKind::SharedUtility);
    assert_eq!(wrapper.classify(), shared(None));
    assert_eq!(utility.classify(), shared(Some("next-server-utility")));
    assert_ne!(wrapper.classify(), utility.classify());
    assert_ne!(wrapper.kind().prefix(), utility.kind().prefix());
    assert_ne!(wrapper.describe("lib/db.ts"), utility.describe("lib/db.ts"));
    assert_eq!(wrapper.resolve(), utility.resolve());
    assert_eq!(wrapper.resolve().primary, vec![17]);
}

#[test]
fn shared_utility_is_described() {
    let edge = ModuleReference::new(3u64, ReferenceKind::SharedUtility);
    assert_eq!(edge.describe("utils/a.ts"), "Next.js server utility utils/a.ts");
    assert_eq!(
        edge.describe("utils/a.ts"),
        format!("{} utils/a.ts", SHARED_UTILITY_PREFIX)
    );
}

#[test]
fn label_of_an_empty_name_ends_in_the_space() {
    let edge = ModuleReference::new(0u8, ReferenceKind::ComponentWrapper);
    assert_eq!(edge.describe(""), "Next.js Server Component ");
    let edge = ModuleReference::new(0u8, ReferenceKind::SharedUtility);
    assert_eq!(edge.describe(""), "Next.js server utility ");
}

#[test]
fn label_keeps_the_name_as_it_is() {
    let edge = ModuleReference::new(0u8, ReferenceKind::SharedUtility);
    assert_eq!(
        edge.describe("[project]/src/ü b.ts (ecmascript)"),
        "Next.js server utility [project]/src/ü b.ts (ecmascript)"
    );
}

#[test]
fn describe_lookup_labels_a_name() {
    let edge = ModuleReference::new(1u32, ReferenceKind::ComponentWrapper);
    let label: Result<String, String> = edge.describe_lookup(Ok(String::from("app/page.tsx")));
    assert_eq!(label, Ok(String::from("Next.js Server Component app/page.tsx")));
}

#[test]
fn describe_lookup_hands_an_error_on() {
    let edge = ModuleReference::new(1u32, ReferenceKind::SharedUtility);
    let label = edge.describe_lookup(Err(String::from("source could not be read")));
    assert_eq!(label, Err(String::from("source could not be read")));
    let label: Result<String, u8> = edge.describe_lookup(Err(42));
    assert_eq!(label, Err(42));
}

#[test]
fn describe_gives_one_label_for_one_name() {
    let edge = ModuleReference::new(5u32, ReferenceKind::ComponentWrapper);
    let twin = ModuleReference::new(5u32, ReferenceKind::ComponentWrapper);
    let elsewhere = ModuleReference::new(6u32, ReferenceKind::ComponentWrapper);
    assert_eq!(edge, twin);
    assert_eq!(edge.describe("a.tsx"), edge.describe("a.tsx"));
    assert_eq!(edge.describe("a.tsx"), twin.describe("a.tsx"));
    assert_eq!(edge.describe("a.tsx"), elsewhere.describe("a.tsx"));
    assert_ne!(edge.describe("a.tsx"), edge.describe("b.tsx"));
}

#[test]
fn asking_again_changes_nothing() {
    let edge = ModuleReference::new(9u32, ReferenceKind::SharedUtility);
    let first_class = edge.classify();
    let first_result = edge.resolve();
    for _ in 0..5 {
        assert_eq!(edge.classify(), first_class);
        assert_eq!(edge.resolve(), first_result);
        assert_eq!(edge.target(), 9);
        assert_eq!(edge.kind(), ReferenceKind::SharedUtility);
    }
}

#[test]
fn resolve_holds_the_target_alone() {
    for target in [0u32, 1, 77, u32::MAX] {
        for kind in [ReferenceKind::ComponentWrapper, ReferenceKind::SharedUtility] {
            let edge = ModuleReference::new(target, kind);
            let result = edge.resolve();
            assert_eq!(result.primary.len(), 1);
            assert_eq!(result.primary[0], target);
            assert_eq!(edge.target(), target);
            assert_eq!(edge.kind(), kind);
        }
    }
}

#[test]
fn resolve_result_of_one_module() {
    let result = ModuleResolveResult::module("m");
    assert_eq!(result.primary, vec!["m"]);
    assert_eq!(result, ModuleResolveResult { primary: vec!["m"] });
}

#[test]
fn kind_table() {
    assert_eq!(ReferenceKind::ComponentWrapper.prefix(), "Next.js Server Component");
    assert_eq!(ReferenceKind::SharedUtility.prefix(), "Next.js server utility");
    assert_eq!(ReferenceKind::ComponentWrapper.merge_tag(), None);
    assert_eq!(
        ReferenceKind::SharedUtility.merge_tag(),
        Some(String::from("next-server-utility"))
    );
}

#[test]
fn merge_tag_is_the_one_constant() {
    assert_eq!(NEXT_SERVER_UTILITY_MERGE_TAG, "next-server-utility");
    assert_eq!(next_server_utility_merge_tag(), NEXT_SERVER_UTILITY_MERGE_TAG);
    assert_eq!(next_server_utility_merge_tag(), next_server_utility_merge_tag());
    assert_eq!(
        ReferenceKind::SharedUtility.merge_tag().as_deref(),
        Some(NEXT_SERVER_UTILITY_MERGE_TAG)
    );
}
