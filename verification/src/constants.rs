//! Fixed endpoints, identification strings and markers of the portal.

use vstd::prelude::*;

verus! {

/// Browser fingerprint sent with every request.
pub const USER_AGENT: &'static str =
    "Mozilla/5.0 (X11; Linux x86_64) AppleWebKit/537.36 (KHTML, like Gecko) Chrome/143.0.0.0 Safari/537.36";

/// The CAS login endpoint.
pub const CAS_LOGIN_URL: &'static str = "https://id.ouc.edu.cn/sso/login";

/// The schedule endpoint, used for the probe and for the data request.
pub const SCHEDULE_API_URL: &'static str = "https://jwgl2024.ouc.edu.cn/jsxsd/xskb/xskb_list.do";

/// The portal's entry page, the usual login target and referer.
pub const JWGL_URL: &'static str = "https://jwgl2024.ouc.edu.cn/";

/// Time-grid identifier used when the selection form offers none.
pub const DEFAULT_KBJCMSID: &'static str = "16FD8C2BE55E15F9E0630100007FF6B5";

/// Part of a final URL that shows the browser is still on the login page.
pub const LOGIN_PAGE_MARKER: &'static str = "id.ouc.edu.cn/sso/login";

/// Body marker of a rejected user name or password, matched as written.
pub const WRONG_CREDENTIALS_MARKER: &'static str = "\\u8D26\\u53F7\\u6216\\u5BC6\\u7801\\u9519\\u8BEF";

/// Body marker of a captcha challenge, matched as written.
pub const CAPTCHA_MARKER: &'static str = "\\u9700\\u8981\\u6821\\u9A8C\\u7801";

/// CSS selector of the hidden flow-token control on the login page.
pub const FLOW_ID_SELECTOR: &'static str = "input[name='flowId']";

/// CSS selector of the time-grid options on the selection form.
pub const TIME_GRID_SELECTOR: &'static str = "select#kbjcmsid option";

/// CSS selector of the semester options on the selection form.
pub const SEMESTER_SELECTOR: &'static str = "select#xnxq01id option";

/// The attribute that carries the value of a control or an option.
pub const VALUE_ATTR: &'static str = "value";

/// The attribute that marks the option a selector shows as chosen.
pub const SELECTED_ATTR: &'static str = "selected";

/// Largest number of redirects a session follows.
pub const REDIRECT_LIMIT: usize = 10;

/// Largest number of body bytes quoted in a diagnostic snippet.
pub const SNIPPET_LIMIT: usize = 200;

} // verus!
