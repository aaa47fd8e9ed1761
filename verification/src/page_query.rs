//! Planning a page-listing query.
//!
//! A page query arrives as a declarative specification: which site,
//! which page type, which categories to include and exclude. The
//! decisions — how the hidden-page convention maps to a slug condition,
//! and how category selection composes with exclusion — are made here,
//! as a pure function from the specification to a query plan; the
//! storage layer translates the plan into its own condition syntax.

use vstd::prelude::*;
use crate::revision::string_list_view;

verus! {

/// Which pages to select by type. Hidden pages are, by convention,
/// those whose slugs start with an underscore.
#[derive(Debug, Clone, Copy, PartialEq, Eq, Structural)]
pub enum PageTypeSelector {
    Hidden,
    Normal,
    All,
}

/// Which categories to draw pages from.
#[derive(Debug, PartialEq)]
pub enum IncludedCategories {
    /// Every category (filtering only by exclusion).
    All,
    /// Exactly the listed category slugs.
    List(Vec<String>),
}

/// The category selection of a page query.
#[derive(Debug, PartialEq)]
pub struct CategoriesSelector {
    pub included_categories: IncludedCategories,
    pub excluded_categories: Vec<String>,
}

/// A page-listing query specification, reduced to the fields the
/// planner decides on.
#[derive(Debug, PartialEq)]
pub struct PageQuery {
    pub current_page_id: Option<i64>,
    pub queried_site_id: i64,
    pub page_type: PageTypeSelector,
    pub categories: CategoriesSelector,
}

/// The slug condition a page-type selection compiles to.
#[derive(Debug, Clone, Copy, PartialEq, Eq, Structural)]
pub enum SlugCondition {
    /// Only slugs starting with an underscore.
    StartsWithUnderscore,
    /// Only slugs not starting with an underscore.
    NotStartsWithUnderscore,
    /// Every slug.
    Any,
}

/// The category condition a selection compiles to: a page's category
/// must belong to the queried site, be among the included slugs when a
/// list was given, and not be among the excluded slugs.
#[derive(Debug, PartialEq)]
pub struct CategoryCondition {
    pub site_id: i64,
    pub included: Option<Vec<String>>,
    pub excluded: Vec<String>,
}

/// The compiled plan of a page-listing query.
#[derive(Debug, PartialEq)]
pub struct PageQueryPlan {
    pub site_id: i64,
    pub slug: SlugCondition,
    pub categories: CategoryCondition,
}

/// Compiles page-listing query specifications.
#[derive(Debug)]
pub struct PageQueryService;

impl PageQueryService {
    /// Compiles a query specification into a plan: pages are drawn from
    /// the queried site; the hidden selector keeps only
    /// underscore-prefixed slugs, the normal selector only the others,
    /// and the all selector every slug; category selection keeps the
    /// excluded list in force whether or not an included list was given
    /// — a slug both included and excluded stays excluded.
    pub fn build_query(query: PageQuery) -> (plan: PageQueryPlan)
        ensures
            plan.site_id == query.queried_site_id,
            plan.slug == (match query.page_type {
                PageTypeSelector::Hidden => SlugCondition::StartsWithUnderscore,
                PageTypeSelector::Normal => SlugCondition::NotStartsWithUnderscore,
                PageTypeSelector::All => SlugCondition::Any,
            }),
            plan.categories.site_id == query.queried_site_id,
            query.categories.included_categories is All ==> plan.categories.included is None,
            (query.categories.included_categories matches IncludedCategories::List(included)
                ==> plan.categories.included matches Some(kept) && string_list_view(kept@)
                == string_list_view(included@)),
            string_list_view(plan.categories.excluded@) == string_list_view(
                query.categories.excluded_categories@,
            ),
    {
        let PageQuery { current_page_id: _, queried_site_id, page_type, categories } = query;
        let CategoriesSelector { included_categories, excluded_categories } = categories;

        let slug = match page_type {
            PageTypeSelector::Hidden => SlugCondition::StartsWithUnderscore,
            PageTypeSelector::Normal => SlugCondition::NotStartsWithUnderscore,
            PageTypeSelector::All => SlugCondition::Any,
        };

        let included = match included_categories {
            IncludedCategories::All => Option::None,
            IncludedCategories::List(list) => Option::Some(list),
        };

        PageQueryPlan {
            site_id: queried_site_id,
            slug,
            categories: CategoryCondition {
                site_id: queried_site_id,
                included,
                excluded: excluded_categories,
            },
        }
    }
}

} // verus!
