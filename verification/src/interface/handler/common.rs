//! Decisions the request handlers make around the services they call.

use crate::interface::dto::category::UpdateCategoryReq;
use crate::interface::dto::sub::property::UpdatePropertyReq;
use crate::interface::dto::FilterOptions;
use crate::models::category::model::PropertyType;
use vstd::prelude::*;

verus! {

/// The size and number of the page a listing shows: as the client asked, or
/// `default_limit` records on page 1.
pub fn page_params(opts: &FilterOptions, default_limit: usize) -> (r: (i64, i64))
    ensures
        r.0 == (match opts.limit { Some(l) => l, None => default_limit }) as i64,
        r.1 == (match opts.page { Some(p) => p, None => 1usize }) as i64,
{
    let limit = match opts.limit {
        Some(l) => l,
        None => default_limit,
    };
    let page = match opts.page {
        Some(p) => p,
        None => 1,
    };
    (limit as i64, page as i64)
}

/// A category change that renames and recolours it is passed on to the notes
/// filed under it; any other change is not.
pub fn category_change(body: &UpdateCategoryReq) -> (r: Option<(String, String)>)
    ensures
        r is Some <==> (body.name is Some && body.color is Some),
        r matches Some((n, c)) ==> n@ == body.name->0@ && c@ == body.color->0@,
{
    match (&body.name, &body.color) {
        (Some(name), Some(color)) => Some((name.clone(), color.clone())),
        _ => None,
    }
}

/// A property change that renames and retypes it is passed on to the notes
/// that give it a value; any other change is not.
pub fn property_change(req: &UpdatePropertyReq) -> (r: Option<(String, PropertyType)>)
    ensures
        r is Some <==> (req.name is Some && req.prop_type is Some),
        r matches Some((n, t)) ==> n@ == req.name->0@ && t == req.prop_type->0,
{
    match (&req.name, req.prop_type) {
        (Some(name), Some(t)) => Some((name.clone(), t)),
        _ => None,
    }
}

} // verus!
