//! The default security service, and the builder of content-security
//! policies.

use crate::domain::errors::{BrowserError, ErrorView};
use crate::domain::services::SecurityService;
use crate::domain::value_objects::{
    url_parse,
    validated_from,
    validation_view,
    Scheme,
    UrlView,
    ValidatedUrl,
};
use crate::text::{
    contains,
    join,
    join_strings,
    joined,
    lemma_replaced_holds_no_pattern,
    lemma_replaced_without_pattern,
    lemma_trimmed_keeps_free,
    occurs_at,
    replace_all,
    replaced,
    starts_with,
    str_contains,
    trim,
    trimmed,
};
use vstd::hash_set::StringHashSet;
use vstd::prelude::*;

verus! {

// ---------------------------------------------------------------------------
// What the security service computes
// ---------------------------------------------------------------------------
/// The text that is handed to the URL parser for the raw text `raw`: `raw`
/// without the white space at its ends, and with `https://` in front where
/// it names no scheme of its own.
pub open spec fn with_default_scheme(raw: Seq<char>) -> Seq<char> {
    if contains(trimmed(raw), "://"@) {
        trimmed(raw)
    } else {
        "https://"@ + trimmed(raw)
    }
}

/// The blocklist that a new service starts with: two hosts that stand for
/// sites known to be harmful.
pub open spec fn example_blocklist() -> Set<Seq<char>> {
    Set::<Seq<char>>::empty().insert("malware-example.com"@).insert("phishing-example.com"@)
}

/// Whether the host of `url` is in `blocked`.
pub open spec fn host_blocked(blocked: Set<Seq<char>>, url: UrlView) -> bool {
    url.host matches Some(h) && blocked.contains(h)
}

/// `html` with every `<script` written as `&lt;script`.
pub open spec fn escaped(html: Seq<char>) -> Seq<char> {
    replaced(html, "<script"@, "&lt;script"@)
}

/// `html` with every `javascript:`, then every `onerror=`, then every
/// `onclick=`, then every `onload=` cut out.
pub open spec fn cut(html: Seq<char>) -> Seq<char> {
    let a = replaced(html, "javascript:"@, Seq::empty());
    let b = replaced(a, "onerror="@, Seq::empty());
    let c = replaced(b, "onclick="@, Seq::empty());
    replaced(c, "onload="@, Seq::empty())
}

/// What [`DefaultSecurityService::sanitize_html`] makes of `html`: the four
/// fragments are cut out, one after the other; then every `<script` that is
/// left or has come together becomes `&lt;script`.
pub open spec fn sanitized_html(html: Seq<char>) -> Seq<char> {
    escaped(cut(html))
}

/// `html` holds none of the four fragments that sanitizing cuts out.
pub open spec fn free_of_cut_fragments(html: Seq<char>) -> bool {
    &&& !contains(html, "javascript:"@)
    &&& !contains(html, "onerror="@)
    &&& !contains(html, "onclick="@)
    &&& !contains(html, "onload="@)
}

// ---------------------------------------------------------------------------
// The security service
// ---------------------------------------------------------------------------
/// The default security service: a blocklist of host names, and a switch
/// for mixed content that is off unless it is turned on.
pub struct DefaultSecurityService {
    blocked_domains: StringHashSet,
    allow_mixed_content: bool,
}

impl DefaultSecurityService {
    /// The host names on the blocklist.
    pub closed spec fn blocked(&self) -> Set<Seq<char>> {
        self.blocked_domains@
    }

    /// Whether the switch for mixed content is on.
    pub closed spec fn mixed_content_enabled(&self) -> bool {
        self.allow_mixed_content
    }

    /// A service that blocks the two example hosts and admits no mixed
    /// content.
    pub fn new() -> (service: Self)
        ensures
            service.blocked() == example_blocklist(),
            !service.mixed_content_enabled(),
    {
        let mut blocked = StringHashSet::new();
        blocked.insert(String::from_str("malware-example.com"));
        blocked.insert(String::from_str("phishing-example.com"));
        DefaultSecurityService { blocked_domains: blocked, allow_mixed_content: false }
    }

    /// Puts `domain` on the blocklist.
    pub fn add_blocked_domain(&mut self, domain: String)
        ensures
            final(self).blocked() == old(self).blocked().insert(domain@),
            final(self).mixed_content_enabled() == old(self).mixed_content_enabled(),
    {
        self.blocked_domains.insert(domain);
    }

    /// Takes `domain` off the blocklist.
    pub fn remove_blocked_domain(&mut self, domain: &str)
        ensures
            final(self).blocked() == old(self).blocked().remove(domain@),
            final(self).mixed_content_enabled() == old(self).mixed_content_enabled(),
    {
        self.blocked_domains.remove(domain);
    }

    /// Turns the switch for mixed content on or off.
    pub fn set_allow_mixed_content(&mut self, allow: bool)
        ensures
            final(self).blocked() == old(self).blocked(),
            final(self).mixed_content_enabled() == allow,
    {
        self.allow_mixed_content = allow;
    }

    /// The text that is handed to the URL parser for `raw`.
    pub fn normalize(raw: &str) -> (candidate: String)
        ensures
            candidate@ == with_default_scheme(raw@),
    {
        let trimmed = trim(raw);
        if str_contains(trimmed.as_str(), "://") {
            trimmed
        } else {
            String::from_str("https://").concat(trimmed.as_str())
        }
    }
}

impl Default for DefaultSecurityService {
    fn default() -> (service: Self)
        ensures
            service.blocked() == example_blocklist(),
            !service.mixed_content_enabled(),
    {
        DefaultSecurityService::new()
    }
}

impl DefaultSecurityService {
    /// Whether [`Self::allow_mixed_content`] admits mixed content on `url`:
    /// only with the switch on, and only on a page that is itself secure.
    pub open spec fn mixed_content_allowed(&self, url: UrlView) -> bool {
        self.mixed_content_enabled() && url.scheme == Scheme::Https
    }
}

impl SecurityService for DefaultSecurityService {
    /// What the parser makes of the text that is handed to it, with the
    /// scheme checked.
    open spec fn validation(&self, raw: Seq<char>) -> Result<UrlView, ErrorView> {
        validated_from(url_parse(with_default_scheme(raw)))
    }

    /// Whether the host of `url` is on the blocklist.
    open spec fn blocks(&self, url: UrlView) -> bool {
        host_blocked(self.blocked(), url)
    }

    /// Trims `url`, puts `https://` in front where it holds no `://`, parses
    /// the result and checks its scheme.
    ///
    /// A text without `://` that is accepted yields a URL that begins with
    /// `https://`. A text that begins with `http://` and is accepted keeps
    /// that scheme. Either kind of text, and one that begins with
    /// `https://`, is accepted exactly when the parser accepts what is
    /// handed to it, and can fail only as `InvalidUrl`. A text that parses
    /// with a scheme other than `http`, `https`, `about` and `data` is
    /// refused as `UnsupportedScheme`, and one that does not parse as
    /// `InvalidUrl`.
    fn validate_url(&self, url: &str) -> (r: Result<ValidatedUrl, BrowserError>)
        ensures
            validation_view(r) == self.validation(url@),
            r matches Ok(u) ==> (!contains(url@, "://"@) ==> u@.scheme == Scheme::Https
                && starts_with(u@.text, "https://"@)),
            r matches Ok(u) ==> (starts_with(trimmed(url@), "http://"@) ==> u@.scheme
                == Scheme::Http && starts_with(u@.text, "http://"@)),
            !contains(url@, "://"@) || starts_with(trimmed(url@), "http://"@) || starts_with(
                trimmed(url@),
                "https://"@,
            ) ==> {
                &&& r is Ok <==> url_parse(with_default_scheme(url@)) is Ok
                &&& r matches Err(e) ==> e@ is InvalidUrl
            },
            match url_parse(with_default_scheme(url@)) {
                Ok(parts) => Scheme::named(parts.scheme) is None ==> validation_view(r) == Err::<
                    UrlView,
                    ErrorView,
                >(ErrorView::UnsupportedScheme(parts.scheme)),
                Err(reason) => validation_view(r) == Err::<UrlView, ErrorView>(
                    ErrorView::InvalidUrl(reason),
                ),
            },
    {
        let candidate = DefaultSecurityService::normalize(url);
        proof {
            lemma_trimmed_keeps_free(url@, "://"@);
            lemma_http_prefix_names_scheme(trimmed(url@));
            lemma_https_prefix_names_scheme(trimmed(url@));
            lemma_https_prefix(trimmed(url@));
        }
        ValidatedUrl::parse(candidate.as_str())
    }

    /// Whether the host of `url` is on the blocklist. A URL without host
    /// is never blocked.
    fn is_blocked(&self, url: &ValidatedUrl) -> (b: bool)
        ensures
            b == self.blocks(url@),
    {
        match url.host_str() {
            Some(host) => self.blocked_domains.contains(host),
            None => false,
        }
    }

    /// Cuts and replaces literally, without parsing: a coarse filter.
    ///
    /// The result never holds `<script`, whatever the text. The four
    /// fragments are cut first and `<script` is escaped last: where a cut
    /// joins what stood on its two sides into `<script`, as in
    /// `<sonload=cript>`, that `<script` is escaped too. (Escaped first, it
    /// would stand in the result.) On every other text the order makes no
    /// difference. A text that holds none of the five fragments comes back
    /// unchanged.
    fn sanitize_html(&self, html: &str) -> (clean: String)
        ensures
            clean@ == sanitized_html(html@),
            !contains(clean@, "<script"@),
            free_of_cut_fragments(html@) ==> clean@ == escaped(html@),
            !contains(html@, "<script"@) && free_of_cut_fragments(html@) ==> clean@ == html@,
    {
        proof {
            lemma_sanitized_holds_no_script(html@);
            if free_of_cut_fragments(html@) {
                lemma_cut_clean_unchanged(html@);
                if !contains(html@, "<script"@) {
                    lemma_sanitized_clean_unchanged(html@);
                }
            }
            reveal_strlit("");
            assert(""@ == Seq::<char>::empty());
        }
        let a = replace_all(html, "javascript:", "");
        let b = replace_all(a.as_str(), "onerror=", "");
        let c = replace_all(b.as_str(), "onclick=", "");
        let d = replace_all(c.as_str(), "onload=", "");
        replace_all(d.as_str(), "<script", "&lt;script")
    }

    /// Whether a page at `url` may load content over plain HTTP.
    fn allow_mixed_content(&self, url: &ValidatedUrl) -> (b: bool)
        ensures
            b == self.mixed_content_allowed(url@),
    {
        self.allow_mixed_content && url.is_secure()
    }
}

// ---------------------------------------------------------------------------
// Facts about the blocklist and the sanitizer
// ---------------------------------------------------------------------------
/// A host that was put on a blocklist is blocked, and one that was put on
/// it and then taken off is not.
pub proof fn lemma_block_then_unblock(blocked: Set<Seq<char>>, domain: Seq<char>, url: UrlView)
    requires
        url.host == Some(domain),
    ensures
        host_blocked(blocked.insert(domain), url),
        !host_blocked(blocked.insert(domain).remove(domain), url),
{
}

/// Nothing is cut out of a text that holds none of the four fragments.
pub proof fn lemma_cut_clean_unchanged(html: Seq<char>)
    requires
        free_of_cut_fragments(html),
    ensures
        cut(html) == html,
        sanitized_html(html) == escaped(html),
{
    lemma_replaced_without_pattern(html, "javascript:"@, Seq::empty());
    lemma_replaced_without_pattern(html, "onerror="@, Seq::empty());
    lemma_replaced_without_pattern(html, "onclick="@, Seq::empty());
    lemma_replaced_without_pattern(html, "onload="@, Seq::empty());
}

/// Sanitizing changes nothing in a text that holds none of the five
/// fragments; so to sanitize such a text twice is to sanitize it once.
pub proof fn lemma_sanitized_clean_unchanged(html: Seq<char>)
    requires
        !contains(html, "<script"@),
        free_of_cut_fragments(html),
    ensures
        sanitized_html(html) == html,
        sanitized_html(sanitized_html(html)) == sanitized_html(html),
{
    lemma_cut_clean_unchanged(html);
    lemma_replaced_without_pattern(html, "<script"@, "&lt;script"@);
}

/// Escaping leaves no `<script` in any text.
pub proof fn lemma_escaped_holds_no_script(html: Seq<char>)
    ensures
        !contains(escaped(html), "<script"@),
{
    reveal_strlit("<script");
    reveal_strlit("&lt;script");
    let pat = "<script"@;
    let to = "&lt;script"@;
    assert(pat.len() == 7 && to.len() == 10);
    assert(pat[0] == '<' && to[0] == '&');
    assert forall|k: int| 0 <= k < to.len() implies to[k] != pat[0] by {
        assert(to[0] == '&' && to[1] == 'l' && to[2] == 't' && to[3] == ';' && to[4] == 's'
            && to[5] == 'c' && to[6] == 'r' && to[7] == 'i' && to[8] == 'p' && to[9] == 't');
    }
    assert forall|k: int| 1 <= k < pat.len() implies pat[k] != to[0] by {
        assert(pat[1] == 's' && pat[2] == 'c' && pat[3] == 'r' && pat[4] == 'i' && pat[5] == 'p'
            && pat[6] == 't');
    }
    lemma_replaced_holds_no_pattern(html, pat, to);
}

/// A sanitized text holds no `<script`, whatever the text was: `<script`
/// is escaped after all cuts are made.
pub proof fn lemma_sanitized_holds_no_script(html: Seq<char>)
    ensures
        !contains(sanitized_html(html), "<script"@),
{
    lemma_escaped_holds_no_script(cut(html));
}

// ---------------------------------------------------------------------------
// Facts about validation
// ---------------------------------------------------------------------------
/// A text that begins with `http://` holds `://`.
pub proof fn lemma_http_prefix_names_scheme(s: Seq<char>)
    ensures
        starts_with(s, "http://"@) ==> contains(s, "://"@),
{
    reveal_strlit("http://");
    reveal_strlit("://");
    if starts_with(s, "http://"@) {
        assert(s.subrange(0, 7) == "http://"@);
        assert(s.subrange(4, 7) == s.subrange(0, 7).subrange(4, 7));
        assert(s.subrange(4, 7) == "://"@);
        assert(occurs_at(s, "://"@, 4));
    }
}

/// A text that begins with `https://` holds `://`.
pub proof fn lemma_https_prefix_names_scheme(s: Seq<char>)
    ensures
        starts_with(s, "https://"@) ==> contains(s, "://"@),
{
    reveal_strlit("https://");
    reveal_strlit("://");
    if starts_with(s, "https://"@) {
        assert(s.subrange(0, 8) == "https://"@);
        assert(s.subrange(5, 8) == s.subrange(0, 8).subrange(5, 8));
        assert(s.subrange(5, 8) == "://"@);
        assert(occurs_at(s, "://"@, 5));
    }
}

/// A text with `https://` put in front begins with `https://`.
pub proof fn lemma_https_prefix(s: Seq<char>)
    ensures
        starts_with("https://"@ + s, "https://"@),
{
    let whole = "https://"@ + s;
    assert(whole.subrange(0, "https://"@.len() as int) == "https://"@);
}

// ---------------------------------------------------------------------------
// Content-security policies
// ---------------------------------------------------------------------------
/// The directive `name` with the given sources: the name, a space, and the
/// sources with a space between each two.
pub open spec fn directive(name: Seq<char>, sources: Seq<Seq<char>>) -> Seq<char> {
    name + " "@ + joined(sources, " "@)
}

/// The texts of a slice of sources.
pub open spec fn source_views(sources: Seq<&str>) -> Seq<Seq<char>> {
    sources.map_values(|s: &str| s@)
}

/// The policy of [`default_csp`], directive by directive.
pub open spec fn default_policy() -> Seq<Seq<char>> {
    seq![
        directive("default-src"@, seq!["'self'"@]),
        directive("script-src"@, seq!["'self'"@, "'unsafe-inline'"@, "'unsafe-eval'"@]),
        directive("style-src"@, seq!["'self'"@, "'unsafe-inline'"@]),
        directive("img-src"@, seq!["'self'"@, "data:"@, "https:"@]),
        "upgrade-insecure-requests"@,
    ]
}

/// Builds a content-security policy, directive by directive. The directives
/// stand in the policy in the order in which they were added.
pub struct CspBuilder {
    directives: Vec<String>,
}

impl View for CspBuilder {
    type V = Seq<Seq<char>>;

    /// The directives added so far, in order.
    closed spec fn view(&self) -> Seq<Seq<char>> {
        self.directives@.map_values(|d: String| d@)
    }
}

impl CspBuilder {
    /// A builder without directives.
    pub fn new() -> (builder: Self)
        ensures
            builder@ == Seq::<Seq<char>>::empty(),
    {
        let builder = CspBuilder { directives: Vec::new() };
        assert(builder@ == Seq::<Seq<char>>::empty());
        builder
    }

    /// Adds the directive `name` with the given sources.
    fn with_directive(self, name: &str, sources: &[&str]) -> (builder: Self)
        ensures
            builder@ == self@.push(directive(name@, source_views(sources@))),
    {
        let mut builder = self;
        let text = String::from_str(name).concat(" ").concat(join(sources, " ").as_str());
        let ghost before = builder@;
        builder.directives.push(text);
        assert(builder@ == before.push(text@));
        builder
    }

    /// Adds `default-src` with the given sources.
    pub fn default_src(self, sources: &[&str]) -> (builder: Self)
        ensures
            builder@ == self@.push(directive("default-src"@, source_views(sources@))),
    {
        self.with_directive("default-src", sources)
    }

    /// Adds `script-src` with the given sources.
    pub fn script_src(self, sources: &[&str]) -> (builder: Self)
        ensures
            builder@ == self@.push(directive("script-src"@, source_views(sources@))),
    {
        self.with_directive("script-src", sources)
    }

    /// Adds `style-src` with the given sources.
    pub fn style_src(self, sources: &[&str]) -> (builder: Self)
        ensures
            builder@ == self@.push(directive("style-src"@, source_views(sources@))),
    {
        self.with_directive("style-src", sources)
    }

    /// Adds `img-src` with the given sources.
    pub fn img_src(self, sources: &[&str]) -> (builder: Self)
        ensures
            builder@ == self@.push(directive("img-src"@, source_views(sources@))),
    {
        self.with_directive("img-src", sources)
    }

    /// Adds `upgrade-insecure-requests`.
    pub fn upgrade_insecure_requests(self) -> (builder: Self)
        ensures
            builder@ == self@.push("upgrade-insecure-requests"@),
    {
        let mut builder = self;
        let text = String::from_str("upgrade-insecure-requests");
        let ghost before = builder@;
        builder.directives.push(text);
        assert(builder@ == before.push(text@));
        builder
    }

    /// The policy: the directives in the order in which they were added,
    /// with `; ` between each two.
    pub fn build(self) -> (policy: String)
        ensures
            policy@ == joined(self@, "; "@),
    {
        join_strings(&self.directives, "; ")
    }
}

impl Default for CspBuilder {
    fn default() -> (builder: Self)
        ensures
            builder@ == Seq::<Seq<char>>::empty(),
    {
        CspBuilder::new()
    }
}

/// The strict policy that the browser applies by default.
pub fn default_csp() -> (policy: String)
    ensures
        policy@ == joined(default_policy(), "; "@),
{
    let own: [&str; 1] = ["'self'"];
    let scripts: [&str; 3] = ["'self'", "'unsafe-inline'", "'unsafe-eval'"];
    let styles: [&str; 2] = ["'self'", "'unsafe-inline'"];
    let images: [&str; 3] = ["'self'", "data:", "https:"];
    let builder = CspBuilder::new().default_src(own.as_slice()).script_src(
        scripts.as_slice(),
    ).style_src(styles.as_slice()).img_src(images.as_slice()).upgrade_insecure_requests();
    proof {
        assert(source_views(own@) == seq!["'self'"@]);
        assert(source_views(scripts@) == seq!["'self'"@, "'unsafe-inline'"@, "'unsafe-eval'"@]);
        assert(source_views(styles@) == seq!["'self'"@, "'unsafe-inline'"@]);
        assert(source_views(images@) == seq!["'self'"@, "data:"@, "https:"@]);
        assert(builder@ == default_policy());
    }
    builder.build()
}

} // verus!
