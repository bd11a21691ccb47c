//! What the routes of the web application answer, as plain values.

use vstd::prelude::*;
use vstd::string::StringExecFns;
use crate::errors::AddError;

verus! {

/// The HTML of the login page.
pub open spec fn login_html() -> Seq<char> {
    r#"<!DOCTYPE html>
        <html lang="en">
            <head>
                <meta http-equiv="content-type" content="text/html; charset=utf-8">
                <title>Login</title>
            </head>
            <body>
                <form action="/login" method="post">  
                    <label>Test login form</label>     
                    <button type="submit">Login</button>
                </form>
            </body>
        </html>"#@
}

/// The login page.
pub fn login_page() -> (r: String)
    ensures
        r@ == login_html(),
{
    String::from_str(r#"<!DOCTYPE html>
        <html lang="en">
            <head>
                <meta http-equiv="content-type" content="text/html; charset=utf-8">
                <title>Login</title>
            </head>
            <body>
                <form action="/login" method="post">  
                    <label>Test login form</label>     
                    <button type="submit">Login</button>
                </form>
            </body>
        </html>"#)
}

/// The answer to a request that added an asset: a notice for the user, the
/// page the user is sent to, and the error when the asset was not added.
pub struct AddAssetOutcome {
    pub notice: String,
    pub location: String,
    pub error: Option<AddError>,
}

/// The answer to adding an asset, from the result of inserting it: either
/// way the user is sent back to the asset page with a notice; a failed
/// insert is also an unexpected error with the insert's cause chain.
pub fn add_asset_outcome(inserted: Result<(), Vec<String>>) -> (r: AddAssetOutcome)
    ensures
        r.location@ == "/web/assets"@,
        inserted is Ok ==> r.notice@ == "Asset successfully added."@ && r.error is None,
        inserted matches Err(c) ==> r.notice@ == "Error: Could Not Add Asset."@,
        inserted matches Err(c) ==> (r.error matches Some(AddError::UnexpectedError(e)) && e@ == c@),
{
    match inserted {
        Ok(()) => AddAssetOutcome {
            notice: String::from_str("Asset successfully added."),
            location: String::from_str("/web/assets"),
            error: None,
        },
        Err(c) => AddAssetOutcome {
            notice: String::from_str("Error: Could Not Add Asset."),
            location: String::from_str("/web/assets"),
            error: Some(AddError::UnexpectedError(c)),
        },
    }
}

} // verus!
