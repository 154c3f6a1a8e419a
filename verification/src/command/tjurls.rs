//! The addresses of the site.

use vstd::prelude::*;

verus! {

/// The site's origin, against which addresses found in its pages are resolved.
pub const BASE: &'static str = "https://tjupt.org";

/// The login page.
pub const LOGIN: &'static str = "https://tjupt.org/login.php";

/// The check-in page, shown only to a logged-in session.
pub const ATTENDANCE: &'static str = "https://tjupt.org/attendance.php";

/// Where the login form is posted.
pub const TAKELOGIN: &'static str = "https://tjupt.org/takelogin.php";

/// The lookup service that finds a picture for a label.
pub const LOOKUP: &'static str = "https://movie.douban.com/j/subject_suggest";

} // verus!
