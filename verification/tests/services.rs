//! Tests of the service-layer decision kernels.

use ftml::message::{MessageService, ServiceError};
use ftml::normalize::normalize_method;
use ftml::page_query::{
    CategoriesSelector, IncludedCategories, PageQuery, PageQueryService, PageTypeSelector,
    SlugCondition,
};
use ftml::parent::modify_parent_output;
use ftml::revision::{CreateRevisionBody, PageRevisionModel, ProvidedValue, RevisionTasks};
use ftml::text::TextService;

fn revision() -> PageRevisionModel {
    PageRevisionModel {
        revision_id: 7,
        wikitext_hash: TextService::hash("old body"),
        title: "Title".to_string(),
        alt_title: None,
        slug: "title".to_string(),
        tags: vec!["one".to_string(), "two".to_string()],
    }
}

fn no_changes() -> CreateRevisionBody {
    CreateRevisionBody {
        wikitext: ProvidedValue::Unset,
        hidden: ProvidedValue::Unset,
        title: ProvidedValue::Unset,
        alt_title: ProvidedValue::Unset,
        slug: ProvidedValue::Unset,
        tags: ProvidedValue::Unset,
    }
}

#[test]
fn hash_exact_values() {
    assert_eq!(
        TextService::hash(""),
        vec![0xcb, 0xf2, 0x9c, 0xe4, 0x84, 0x22, 0x23, 0x25]
    );
    assert_eq!(
        TextService::hash("a"),
        vec![0xaf, 0x63, 0xdc, 0x4c, 0x86, 0x01, 0xec, 0x8c]
    );
}

#[test]
fn determine_without_changes_is_empty() {
    let tasks = RevisionTasks::determine(&revision(), &no_changes());
    assert!(tasks.is_empty());
    assert_eq!(tasks, RevisionTasks::default());
}

#[test]
fn determine_same_wikitext_forces_nothing() {
    let changes = CreateRevisionBody {
        wikitext: ProvidedValue::Provided("old body".to_string()),
        ..no_changes()
    };
    assert!(RevisionTasks::determine(&revision(), &changes).is_empty());
}

#[test]
fn determine_changed_wikitext() {
    let changes = CreateRevisionBody {
        wikitext: ProvidedValue::Provided("new body".to_string()),
        ..no_changes()
    };
    let tasks = RevisionTasks::determine(&revision(), &changes);
    assert!(tasks.render_and_update_links);
    assert!(!tasks.rerender_incoming_links);
    assert!(tasks.rerender_outgoing_includes);
    assert!(tasks.rerender_templates);
    assert!(!tasks.is_empty());
}

#[test]
fn determine_changed_title() {
    let changes = CreateRevisionBody {
        title: ProvidedValue::Provided("Other".to_string()),
        ..no_changes()
    };
    let tasks = RevisionTasks::determine(&revision(), &changes);
    assert!(tasks.render_and_update_links);
    assert!(tasks.rerender_incoming_links);
    assert!(!tasks.rerender_outgoing_includes);
    assert!(!tasks.rerender_templates);
}

#[test]
fn determine_changed_slug() {
    let changes = CreateRevisionBody {
        slug: ProvidedValue::Provided("elsewhere".to_string()),
        ..no_changes()
    };
    let tasks = RevisionTasks::determine(&revision(), &changes);
    assert!(tasks.render_and_update_links);
    assert!(tasks.rerender_incoming_links);
    assert!(tasks.rerender_outgoing_includes);
    assert!(tasks.rerender_templates);
}

#[test]
fn determine_equal_tags_force_nothing() {
    let changes = CreateRevisionBody {
        tags: ProvidedValue::Provided(vec!["one".to_string(), "two".to_string()]),
        ..no_changes()
    };
    assert!(RevisionTasks::determine(&revision(), &changes).is_empty());
}

#[test]
fn determine_changed_tags() {
    let changes = CreateRevisionBody {
        tags: ProvidedValue::Provided(vec!["one".to_string()]),
        ..no_changes()
    };
    let tasks = RevisionTasks::determine(&revision(), &changes);
    assert!(tasks.render_and_update_links);
    assert!(!tasks.rerender_incoming_links);
    assert!(tasks.rerender_outgoing_includes);
    assert!(tasks.rerender_templates);
}

#[test]
fn determine_hidden_forces_nothing() {
    let changes = CreateRevisionBody {
        hidden: ProvidedValue::Provided(true),
        ..no_changes()
    };
    assert!(RevisionTasks::determine(&revision(), &changes).is_empty());
}

#[test]
fn validate_send_accepts_ordinary_message() {
    assert_eq!(MessageService::validate_send("Hi", "A body.", 100, 1000), Ok(()));
}

#[test]
fn validate_send_rejects_empty_subject() {
    assert_eq!(
        MessageService::validate_send("", "A body.", 100, 1000),
        Err(ServiceError::BadRequest)
    );
}

#[test]
fn validate_send_rejects_long_subject() {
    assert_eq!(
        MessageService::validate_send("abcd", "A body.", 3, 1000),
        Err(ServiceError::BadRequest)
    );
}

#[test]
fn validate_send_rejects_empty_body() {
    assert_eq!(
        MessageService::validate_send("Hi", "", 100, 1000),
        Err(ServiceError::BadRequest)
    );
}

#[test]
fn validate_send_rejects_long_body() {
    assert_eq!(
        MessageService::validate_send("Hi", "too long", 100, 3),
        Err(ServiceError::BadRequest)
    );
}

#[test]
fn validate_draft_references() {
    let some = Some("rec".to_string());
    assert_eq!(MessageService::validate_draft_references(&None, false, &None, false), Ok(()));
    assert_eq!(MessageService::validate_draft_references(&some, true, &None, false), Ok(()));
    assert_eq!(
        MessageService::validate_draft_references(&some, false, &None, false),
        Err(ServiceError::BadRequest)
    );
    assert_eq!(
        MessageService::validate_draft_references(&None, false, &some, false),
        Err(ServiceError::BadRequest)
    );
}

#[test]
fn build_query_hidden_pages() {
    let plan = PageQueryService::build_query(PageQuery {
        current_page_id: None,
        queried_site_id: 42,
        page_type: PageTypeSelector::Hidden,
        categories: CategoriesSelector {
            included_categories: IncludedCategories::All,
            excluded_categories: vec!["secret".to_string()],
        },
    });
    assert_eq!(plan.site_id, 42);
    assert_eq!(plan.slug, SlugCondition::StartsWithUnderscore);
    assert_eq!(plan.categories.site_id, 42);
    assert_eq!(plan.categories.included, None);
    assert_eq!(plan.categories.excluded, vec!["secret".to_string()]);
}

#[test]
fn build_query_category_list() {
    let plan = PageQueryService::build_query(PageQuery {
        current_page_id: Some(1),
        queried_site_id: 7,
        page_type: PageTypeSelector::Normal,
        categories: CategoriesSelector {
            included_categories: IncludedCategories::List(vec![
                "alpha".to_string(),
                "beta".to_string(),
            ]),
            excluded_categories: Vec::new(),
        },
    });
    assert_eq!(plan.slug, SlugCondition::NotStartsWithUnderscore);
    assert_eq!(
        plan.categories.included,
        Some(vec!["alpha".to_string(), "beta".to_string()])
    );
    assert_eq!(plan.categories.excluded.len(), 0);
}

#[test]
fn build_query_all_pages() {
    let plan = PageQueryService::build_query(PageQuery {
        current_page_id: None,
        queried_site_id: 1,
        page_type: PageTypeSelector::All,
        categories: CategoriesSelector {
            included_categories: IncludedCategories::All,
            excluded_categories: Vec::new(),
        },
    });
    assert_eq!(plan.slug, SlugCondition::Any);
}

#[test]
fn modify_parent_output_folds_outcomes() {
    let out = modify_parent_output(
        Some(vec![Some(10), None, Some(30)]),
        Some(vec![Some(true), None, Some(false)]),
    );
    assert_eq!(out.added, Some(vec![10, 30]));
    assert_eq!(out.removed, Some(vec![true, false]));

    let out = modify_parent_output(None, None);
    assert_eq!(out.added, None);
    assert_eq!(out.removed, None);
}

#[test]
fn normalize_method_examples() {
    assert_eq!(normalize_method("Big Cheese Horace".to_string()), "big-cheese-horace");
    assert_eq!(normalize_method("bottom--Text".to_string()), "bottom-text");
    assert_eq!(normalize_method("-test-".to_string()), "test");
    // Normalizing twice changes nothing further.
    let once = normalize_method("Tufto's Proposal".to_string());
    assert_eq!(normalize_method(once.clone()), once);
}
