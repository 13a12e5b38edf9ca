//! Text helpers behind the HTML views: escaping, trimming, quote marks,
//! avatar URLs and user links.
use vstd::prelude::*;
use vstd::string::StringSliceAdditionalSpecFns;

verus! {

/// Relies on `String::from_iter` over `char`s: the resulting string holds
/// exactly the given characters.
#[verifier::external_body]
fn chars_to_string(chars: &Vec<char>) -> (r: String)
    ensures
        r@ == chars@,
{
    chars.iter().collect()
}

/// How one character renders in escaped HTML: the five characters that can
/// open markup or close an attribute become numeric entities.
pub open spec fn spec_escape_char(c: char) -> Seq<char> {
    if c == '<' {
        seq!['&', '#', '6', '0', ';']
    } else if c == '>' {
        seq!['&', '#', '6', '2', ';']
    } else if c == '&' {
        seq!['&', '#', '3', '8', ';']
    } else if c == '"' {
        seq!['&', '#', '3', '4', ';']
    } else if c == '\'' {
        seq!['&', '#', '3', '9', ';']
    } else {
        seq![c]
    }
}

/// Escaped HTML for a whole string, character by character.
pub open spec fn spec_escape(s: Seq<char>) -> Seq<char>
    decreases s.len(),
{
    if s.len() == 0 {
        Seq::empty()
    } else {
        spec_escape(s.drop_last()) + spec_escape_char(s.last())
    }
}

/// HTML-escapes text for embedding in markup or attribute values.
pub fn escape(text: &str) -> (r: String)
    ensures
        r@ == spec_escape(text@),
{
    let n = text.unicode_len();
    let mut out: Vec<char> = Vec::new();
    let mut i: usize = 0;
    while i < n
        invariant
            i <= n,
            n == text@.len(),
            out@ == spec_escape(text@.take(i as int)),
        decreases n - i,
    {
        let c = text.get_char(i);
        if c == '<' {
            out.push('&');
            out.push('#');
            out.push('6');
            out.push('0');
            out.push(';');
        } else if c == '>' {
            out.push('&');
            out.push('#');
            out.push('6');
            out.push('2');
            out.push(';');
        } else if c == '&' {
            out.push('&');
            out.push('#');
            out.push('3');
            out.push('8');
            out.push(';');
        } else if c == '"' {
            out.push('&');
            out.push('#');
            out.push('3');
            out.push('4');
            out.push(';');
        } else if c == '\'' {
            out.push('&');
            out.push('#');
            out.push('3');
            out.push('9');
            out.push(';');
        } else {
            out.push(c);
        }
        proof {
            let t = text@.take(i + 1);
            assert(t.drop_last() =~= text@.take(i as int));
            assert(t.last() == text@[i as int]);
            assert(out@ =~= spec_escape(text@.take(i as int)) + spec_escape_char(
                text@[i as int],
            ));
        }
        i = i + 1;
    }
    proof {
        assert(text@.take(n as int) =~= text@);
    }
    chars_to_string(&out)
}

/// Text cut to at most `max_length` characters: longer text keeps its first
/// `max_length - 3` characters and gains a `...` ellipsis.
pub open spec fn spec_trim_if_needed(s: Seq<char>, max_length: int) -> Seq<char> {
    if s.len() > max_length {
        s.take(max_length - 3) + "..."@
    } else {
        s
    }
}

/// Trims text for narrow displays; the limit must leave room for the
/// three-character ellipsis.
pub fn trim_if_needed(text: &str, max_length: usize) -> (r: String)
    requires
        max_length >= 3,
    ensures
        r@ == spec_trim_if_needed(text@, max_length as int),
{
    let n = text.unicode_len();
    if n > max_length {
        let head = text.substring_char(0, max_length - 3);
        let mut out = head.to_owned();
        out.append("...");
        proof {
            assert(text@.subrange(0, max_length - 3) =~= text@.take(max_length - 3));
        }
        out
    } else {
        text.to_owned()
    }
}

/// Quote text wrapped in quote marks, unless it already contains one and so
/// supplies its own quoting.
pub open spec fn spec_quote_marks_if_needed(s: Seq<char>) -> Seq<char> {
    if s.contains('"') {
        s
    } else {
        "\""@ + s + "\""@
    }
}

pub fn quote_marks_if_needed(text: &str) -> (r: String)
    ensures
        r@ == spec_quote_marks_if_needed(text@),
{
    let n = text.unicode_len();
    let mut found = false;
    let mut i: usize = 0;
    while i < n
        invariant
            i <= n,
            n == text@.len(),
            found == text@.take(i as int).contains('"'),
        decreases n - i,
    {
        let c = text.get_char(i);
        proof {
            if c == '"' {
                assert(text@.take(i + 1)[i as int] == '"');
            }
            if text@.take(i + 1).contains('"') && c != '"' {
                let j = choose|j: int| 0 <= j < i + 1 && #[trigger] text@.take(i + 1)[j] == '"';
                assert(text@.take(i as int)[j] == '"');
            }
        }
        if c == '"' {
            found = true;
        }
        i = i + 1;
    }
    proof {
        assert(text@.take(n as int) =~= text@);
    }
    if found {
        text.to_owned()
    } else {
        let mut out = String::new();
        out.append("\"");
        out.append(text);
        out.append("\"");
        out
    }
}

/// The decimal digit character for a value below ten.
pub open spec fn spec_digit_char(d: int) -> char {
    ((48 + d) as u8) as char
}

/// The decimal rendering of a non-negative number, most significant digit
/// first.
pub open spec fn spec_u64_dec(n: int) -> Seq<char>
    decreases n,
{
    if n < 10 {
        seq![spec_digit_char(n)]
    } else {
        spec_u64_dec(n / 10) + seq![spec_digit_char(n % 10)]
    }
}

/// The decimal rendering of a signed number.
pub open spec fn spec_i64_dec(n: int) -> Seq<char> {
    if n >= 0 {
        spec_u64_dec(n)
    } else {
        seq!['-'] + spec_u64_dec(-n)
    }
}

/// Appends the decimal digits of `n`.
fn push_u64_dec(n: u64, out: &mut Vec<char>)
    ensures
        final(out)@ == old(out)@ + spec_u64_dec(n as int),
    decreases n,
{
    if n >= 10 {
        push_u64_dec(n / 10, out);
    }
    let digit = (48 + (n % 10) as u8) as char;
    out.push(digit);
}

/// Renders a non-negative number in decimal.
pub fn u64_to_string(n: u64) -> (r: String)
    ensures
        r@ == spec_u64_dec(n as int),
{
    let mut digits: Vec<char> = Vec::new();
    push_u64_dec(n, &mut digits);
    chars_to_string(&digits)
}

/// Renders a signed number in decimal.
pub fn i64_to_string(n: i64) -> (r: String)
    ensures
        r@ == spec_i64_dec(n as int),
{
    if n >= 0 {
        u64_to_string(n as u64)
    } else {
        let magnitude: u64 = if n == i64::MIN {
            9223372036854775808u64
        } else {
            (-n) as u64
        };
        let mut digits: Vec<char> = Vec::new();
        digits.push('-');
        push_u64_dec(magnitude, &mut digits);
        proof {
            assert(digits@ =~= seq!['-'] + spec_u64_dec(magnitude as int));
        }
        chars_to_string(&digits)
    }
}

/// The hex digest the avatar service keys on: a pure function of the email
/// address. Its value is the digest library's business.
pub uninterp spec fn md5_hex_of(s: Seq<char>) -> Seq<char>;

/// Relies on `md5::compute` and the digest's `LowerHex` rendering: the
/// digest depends on the input bytes alone and prints as two lowercase hex
/// digits per digest byte, 32 in all.
#[verifier::external_body]
fn md5_hex(s: &str) -> (r: String)
    ensures
        r@ == md5_hex_of(s@),
        r@.len() == 32,
{
    format!("{:x}", md5::compute(s.as_bytes()))
}

/// The avatar service URL for an email address at a given size.
pub open spec fn spec_gravatar_url(email: Seq<char>, size: int) -> Seq<char> {
    "http://www.gravatar.com/avatar.php?gravatar_id="@ + md5_hex_of(email) + "&size="@
        + spec_u64_dec(size) + "&rating=PG"@
}

fn gravatar_url(email_address: &str, avatar_size: u16) -> (r: String)
    ensures
        r@ == spec_gravatar_url(email_address@, avatar_size as int),
{
    let mut out = String::new();
    out.append("http://www.gravatar.com/avatar.php?gravatar_id=");
    let hex = md5_hex(email_address);
    out.append(hex.as_str());
    out.append("&size=");
    let size = u64_to_string(avatar_size as u64);
    out.append(size.as_str());
    out.append("&rating=PG");
    out
}

/// The avatar `<img>` tag for an email address: class and dimensions as
/// given, the URL escaped for the attribute value.
pub open spec fn spec_gravatar(email: Seq<char>, size: int, class: Seq<char>) -> Seq<char> {
    "<img class=\""@ + class + "\" alt=\"avatar\" width=\""@ + spec_u64_dec(size)
        + "\" height=\""@ + spec_u64_dec(size) + "\" src=\""@ + spec_escape(
        spec_gravatar_url(email, size),
    ) + "\"/>"@
}

pub fn gravatar(email_address: &str, avatar_size: u16, class: &str) -> (r: String)
    ensures
        r@ == spec_gravatar(email_address@, avatar_size as int, class@),
{
    let url = gravatar_url(email_address, avatar_size);
    let size = u64_to_string(avatar_size as u64);
    let escaped_url = escape(url.as_str());
    let mut out = String::new();
    out.append("<img class=\"");
    out.append(class);
    out.append("\" alt=\"avatar\" width=\"");
    out.append(size.as_str());
    out.append("\" height=\"");
    out.append(size.as_str());
    out.append("\" src=\"");
    out.append(escaped_url.as_str());
    out.append("\"/>");
    out
}

/// A quote as it appears in a tweet: quote marks added if needed, then
/// trimmed to 80 characters.
pub fn tweet_quote_text(text: &str) -> (r: String)
    ensures
        r@ == spec_trim_if_needed(spec_quote_marks_if_needed(text@), 80),
{
    let quoted = quote_marks_if_needed(text);
    trim_if_needed(quoted.as_str(), 80)
}

/// Whether a byte passes through percent-encoding unchanged: ASCII
/// alphanumerics, `_`, `.`, `-`, `~`, and `/` (so a whole request path can be
/// carried as one query value).
pub open spec fn spec_url_unreserved(b: u8) -> bool {
    (97 <= b <= 122) || (65 <= b <= 90) || (48 <= b <= 57) || b == 95 || b == 46 || b == 45
        || b == 126 || b == 47
}

/// The uppercase hex digit character for a value below sixteen.
pub open spec fn spec_hex_upper(d: int) -> char {
    if d < 10 {
        spec_digit_char(d)
    } else {
        ((65 + (d - 10)) as u8) as char
    }
}

/// How one byte percent-encodes: unreserved bytes pass through, everything
/// else becomes `%` and two uppercase hex digits.
pub open spec fn spec_urlencode_byte(b: u8) -> Seq<char> {
    if spec_url_unreserved(b) {
        seq![b as char]
    } else {
        seq!['%', spec_hex_upper(b as int / 16), spec_hex_upper(b as int % 16)]
    }
}

/// The percent-encoding of a byte string, byte by byte.
pub open spec fn spec_urlencode(bytes: Seq<u8>) -> Seq<char>
    decreases bytes.len(),
{
    if bytes.len() == 0 {
        Seq::empty()
    } else {
        spec_urlencode(bytes.drop_last()) + spec_urlencode_byte(bytes.last())
    }
}

fn hex_upper_char(d: u8) -> (r: char)
    requires
        d < 16,
    ensures
        r == spec_hex_upper(d as int),
{
    if d < 10 {
        (48 + d) as char
    } else {
        (65 + (d - 10)) as char
    }
}

/// Percent-encodes text so it can stand in a URL query value; multi-byte
/// characters encode each of their UTF-8 bytes.
pub fn urlencode(text: &str) -> (r: String)
    ensures
        r@ == spec_urlencode(text.spec_bytes()),
{
    let bytes = text.as_bytes_vec();
    let mut out: Vec<char> = Vec::new();
    let mut i: usize = 0;
    while i < bytes.len()
        invariant
            i <= bytes@.len(),
            bytes@ == text.spec_bytes(),
            out@ == spec_urlencode(bytes@.take(i as int)),
        decreases bytes@.len() - i,
    {
        let b = bytes[i];
        if (97 <= b && b <= 122) || (65 <= b && b <= 90) || (48 <= b && b <= 57) || b == 95 || b
            == 46 || b == 45 || b == 126 || b == 47 {
            out.push(b as char);
        } else {
            out.push('%');
            let hi = hex_upper_char(b / 16);
            out.push(hi);
            let lo = hex_upper_char(b % 16);
            out.push(lo);
        }
        proof {
            let t = bytes@.take(i + 1);
            assert(t.drop_last() =~= bytes@.take(i as int));
            assert(t.last() == bytes@[i as int]);
            assert(out@ =~= spec_urlencode(bytes@.take(i as int)) + spec_urlencode_byte(
                bytes@[i as int],
            ));
        }
        i = i + 1;
    }
    proof {
        assert(bytes@.take(bytes@.len() as int) =~= bytes@);
    }
    chars_to_string(&out)
}

/// The email address an avatar is keyed on: empty when the user has none.
pub open spec fn spec_email_or_empty(user: crate::model::User) -> Seq<char> {
    match user.email_address {
        Some(e) => e@,
        None => Seq::empty(),
    }
}

/// A user's avatar image tag.
pub fn gravatar_for(user: &crate::model::User, avatar_size: &u16, class: &str) -> (r: String)
    ensures
        r@ == spec_gravatar(spec_email_or_empty(*user), *avatar_size as int, class@),
{
    proof {
        reveal_strlit("");
        assert(""@ =~= Seq::<char>::empty());
    }
    let email_address: &str = match &user.email_address {
        Some(e) => e.as_str(),
        None => "",
    };
    gravatar(email_address, *avatar_size, class)
}

/// How a user renders in HTML: an optional avatar, the display name (or full
/// name, when swapped) escaped, optionally wrapped in a link to the user's
/// page or in a styled span.
pub open spec fn spec_link_to_user(
    user: crate::model::User,
    avatar: bool,
    actually_link: bool,
    swap_names: bool,
    css_avatar: bool,
    size: int,
    prefix: Seq<char>,
    class: Seq<char>,
) -> Seq<char> {
    let username = user.spec_display_name();
    let fullname = user.fullname@;
    let content_text = if swap_names {
        fullname
    } else {
        username
    };
    let title = if swap_names {
        username
    } else {
        fullname
    };
    let email = spec_email_or_empty(user);
    let grav = if avatar && !css_avatar {
        spec_gravatar(email, size, "gravatar"@)
    } else {
        Seq::empty()
    };
    let link_text = prefix + grav + spec_escape(content_text);
    let style = if css_avatar {
        "background-image:url("@ + spec_escape(spec_gravatar_url(email, size)) + ")"@
    } else {
        Seq::empty()
    };
    if actually_link {
        "<a href=\"/users/"@ + spec_i64_dec(user.id as int) + "\" class=\""@ + class
            + "\" title=\""@ + title + "\" style=\""@ + style + "\">"@ + link_text + "</a>"@
    } else if css_avatar {
        "<span class=\""@ + class + "\" style=\""@ + style + "\">"@ + link_text + "</span>"@
    } else {
        link_text
    }
}

pub fn link_to_user(
    user: &crate::model::User,
    avatar: &bool,
    actually_link: &bool,
    swap_names: &bool,
    css_avatar: &bool,
    avatar_size: &u16,
    prefix: &str,
    class: &str,
) -> (r: String)
    ensures
        r@ == spec_link_to_user(
            *user,
            *avatar,
            *actually_link,
            *swap_names,
            *css_avatar,
            *avatar_size as int,
            prefix@,
            class@,
        ),
{
    proof {
        reveal_strlit("");
        assert(""@ =~= Seq::<char>::empty());
    }
    let username = user.username_or_fullname();
    let fullname: &str = user.fullname.as_str();
    let (content_text, title): (&str, &str) = if *swap_names {
        (fullname, username)
    } else {
        (username, fullname)
    };
    let email_address: &str = match &user.email_address {
        Some(e) => e.as_str(),
        None => "",
    };

    let mut link_text = String::new();
    link_text.append(prefix);
    if *avatar && !*css_avatar {
        let grav = gravatar(email_address, *avatar_size, "gravatar");
        link_text.append(grav.as_str());
    }
    let escaped_content = escape(content_text);
    link_text.append(escaped_content.as_str());

    let mut style = String::new();
    if *css_avatar {
        let image = gravatar_url(email_address, *avatar_size);
        let escaped_image = escape(image.as_str());
        style.append("background-image:url(");
        style.append(escaped_image.as_str());
        style.append(")");
    }

    if *actually_link {
        let id_text = i64_to_string(user.id as i64);
        let mut out = String::new();
        out.append("<a href=\"/users/");
        out.append(id_text.as_str());
        out.append("\" class=\"");
        out.append(class);
        out.append("\" title=\"");
        out.append(title);
        out.append("\" style=\"");
        out.append(style.as_str());
        out.append("\">");
        out.append(link_text.as_str());
        out.append("</a>");
        out
    } else if *css_avatar {
        let mut out = String::new();
        out.append("<span class=\"");
        out.append(class);
        out.append("\" style=\"");
        out.append(style.as_str());
        out.append("\">");
        out.append(link_text.as_str());
        out.append("</span>");
        out
    } else {
        link_text
    }
}

/// The comment-count caption under a quote: nothing unless comments are
/// shown, then "No comments (yet).", "1 comment." or "N comments.".
pub open spec fn spec_comments_text(count: int, show_comments: bool) -> Seq<char> {
    if !show_comments {
        Seq::empty()
    } else if count == 0 {
        "No comments (yet)."@
    } else if count == 1 {
        "1 comment."@
    } else {
        spec_i64_dec(count) + " comments."@
    }
}

pub fn comments_text(comments_count: i64, show_comments: bool) -> (r: String)
    ensures
        r@ == spec_comments_text(comments_count as int, show_comments),
{
    proof {
        reveal_strlit("");
        assert(""@ =~= Seq::<char>::empty());
    }
    if !show_comments {
        String::new()
    } else if comments_count == 0 {
        String::from_str("No comments (yet).")
    } else if comments_count == 1 {
        String::from_str("1 comment.")
    } else {
        let mut out = i64_to_string(comments_count);
        out.append(" comments.");
        out
    }
}

} // verus!
