//! Configuration values: the API token, the default app, and output
//! preferences. Loading and saving the on-disk file is the surrounding
//! program's business; everything about the values themselves is here.

use vstd::prelude::*;
use vstd::string::StringExecFns;

use crate::error::{RepriseError, Result};
use crate::strutil::{spec_starts_with, str_chars, chars_to_string};

verus! {

/// API-related configuration
pub struct ApiConfig {
    /// API token
    pub token: Option<String>,
}

/// Default values for commands
pub struct DefaultsConfig {
    /// Default app slug
    pub app_slug: Option<String>,
    /// Default app name (for display)
    pub app_name: Option<String>,
}

/// Output formatting preferences
pub struct OutputConfig {
    /// Default output format
    pub format: String,
}

/// The default output format name.
pub fn default_format() -> (r: String)
    ensures
        r@ == "pretty"@,
{
    let mut s = String::new();
    s.append("pretty");
    s
}

impl Default for ApiConfig {
    fn default() -> (r: Self)
        ensures
            r.token is None,
    {
        ApiConfig { token: None }
    }
}

impl Default for DefaultsConfig {
    fn default() -> (r: Self)
        ensures
            r.app_slug is None,
            r.app_name is None,
    {
        DefaultsConfig { app_slug: None, app_name: None }
    }
}

impl Default for OutputConfig {
    fn default() -> (r: Self)
        ensures
            r.format@ == "pretty"@,
    {
        OutputConfig { format: default_format() }
    }
}

/// Main configuration structure
pub struct Config {
    /// API configuration
    pub api: ApiConfig,
    /// Default settings
    pub defaults: DefaultsConfig,
    /// Output preferences
    pub output: OutputConfig,
}

impl Default for Config {
    fn default() -> (r: Self)
        ensures
            r.api.token is None,
            r.defaults.app_slug is None,
            r.defaults.app_name is None,
            r.output.format@ == "pretty"@,
    {
        Config {
            api: ApiConfig { token: None },
            defaults: DefaultsConfig { app_slug: None, app_name: None },
            output: OutputConfig { format: default_format() },
        }
    }
}

impl Config {
    /// Get the API token or return an error with instructions
    pub fn require_token(&self) -> (r: Result<&str>)
        ensures
            match self.api.token {
                Some(t) => r matches Ok(s) && s@ == t@,
                None => r matches Err(RepriseError::ConfigMissing(m)) && m@
                    == "API token not configured. Run 'reprise config init' to set up."@,
            },
    {
        match &self.api.token {
            Some(t) => Ok(t.as_str()),
            None => {
                let mut m = String::new();
                m.append("API token not configured. Run 'reprise config init' to set up.");
                Err(RepriseError::ConfigMissing(m))
            },
        }
    }

    /// Get the default app slug or return an error with instructions
    pub fn require_default_app(&self) -> (r: Result<&str>)
        ensures
            match self.defaults.app_slug {
                Some(t) => r matches Ok(s) && s@ == t@,
                None => r matches Err(RepriseError::NoDefaultApp),
            },
    {
        match &self.defaults.app_slug {
            Some(t) => Ok(t.as_str()),
            None => Err(RepriseError::NoDefaultApp),
        }
    }

    /// Set the default app
    pub fn set_default_app(&mut self, slug: String, name: Option<String>)
        ensures
            final(self).defaults.app_slug == Some(slug),
            final(self).defaults.app_name == name,
            final(self).api == old(self).api,
            final(self).output == old(self).output,
    {
        self.defaults.app_slug = Some(slug);
        self.defaults.app_name = name;
    }

    /// Set the API token
    pub fn set_token(&mut self, token: String)
        ensures
            final(self).api.token == Some(token),
            final(self).defaults == old(self).defaults,
            final(self).output == old(self).output,
    {
        self.api.token = Some(token);
    }
}

/// Mask a secret for display: with more than twice `visible_chars`
/// characters, the first and last `visible_chars` joined by an
/// ellipsis; anything shorter is fully starred out.
pub fn mask_token(token: &str, visible_chars: usize) -> (r: String)
    requires
        visible_chars * 2 < usize::MAX,
    ensures
        token@.len() > visible_chars * 2 ==> r@ == token@.subrange(0, visible_chars as int)
            + "..."@ + token@.subrange(
            token@.len() - visible_chars,
            token@.len() as int,
        ),
        token@.len() <= visible_chars * 2 ==> r@ == "****"@,
{
    let chars = str_chars(token);
    if chars.len() > visible_chars * 2 {
        let mut shown: Vec<char> = Vec::new();
        let mut i: usize = 0;
        while i < visible_chars
            invariant
                i <= visible_chars,
                visible_chars * 2 < chars@.len(),
                chars@ == token@,
                shown@ == token@.subrange(0, i as int),
            decreases visible_chars - i,
        {
            shown.push(chars[i]);
            i = i + 1;
            proof {
                assert(shown@ =~= token@.subrange(0, i as int));
            }
        }
        let start = chars_to_string(&shown);
        let mut tail_part: Vec<char> = Vec::new();
        let mut j: usize = chars.len() - visible_chars;
        while j < chars.len()
            invariant
                chars@.len() - visible_chars <= j <= chars@.len(),
                visible_chars * 2 < chars@.len(),
                chars@ == token@,
                tail_part@ == token@.subrange(token@.len() - visible_chars, j as int),
            decreases chars@.len() - j,
        {
            tail_part.push(chars[j]);
            j = j + 1;
            proof {
                assert(tail_part@ =~= token@.subrange(token@.len() - visible_chars, j as int));
            }
        }
        let finish = chars_to_string(&tail_part);
        let mut r = start;
        r.append("...");
        r.append(finish.as_str());
        r
    } else {
        let mut r = String::new();
        r.append("****");
        r
    }
}

/// Apply one `key = value` assignment to the in-memory configuration:
/// the token, the default app slug or name, or the output format,
/// which must be `pretty` or `json`. An unknown key, or an invalid
/// format value, changes nothing and reports the mistake.
pub fn config_set_value(config: &mut Config, key: &str, value: &str) -> (r: Result<()>)
    ensures
        key@ == "api.token"@ ==> r is Ok && (final(config).api.token matches Some(t) && t@
            == value@),
        key@ == "defaults.app_slug"@ ==> r is Ok && (final(config).defaults.app_slug matches
            Some(t) && t@ == value@),
        key@ == "defaults.app_name"@ ==> r is Ok && (final(config).defaults.app_name matches
            Some(t) && t@ == value@),
        key@ == "output.format"@ ==> ((value@ == "pretty"@ || value@ == "json"@) ==> r is Ok
            && final(config).output.format@ == value@) && (!(value@ == "pretty"@ || value@
            == "json"@) ==> (r matches Err(RepriseError::InvalidArgument(_))) && *final(config)
            == *old(config)),
        key@ != "api.token"@ && key@ != "defaults.app_slug"@ && key@ != "defaults.app_name"@
            && key@ != "output.format"@ ==> (r matches Err(RepriseError::InvalidArgument(m))
            && spec_starts_with(m@, "Unknown config key"@)) && *final(config) == *old(config),
{
    proof {
        // The recognised keys and format values are pairwise distinct.
        reveal_strlit("api.token");
        reveal_strlit("defaults.app_slug");
        reveal_strlit("defaults.app_name");
        reveal_strlit("output.format");
        reveal_strlit("pretty");
        reveal_strlit("json");
        assert("api.token"@.len() == 9);
        assert("defaults.app_slug"@.len() == 17);
        assert("defaults.app_name"@.len() == 17);
        assert("defaults.app_slug"@[9] == 'a' && "defaults.app_name"@[9] == 'a');
        assert("defaults.app_slug"@[13] == 's' && "defaults.app_name"@[13] == 'n');
        assert("output.format"@.len() == 13);
        assert("pretty"@.len() == 6);
        assert("json"@.len() == 4);
    }
    if str_slice_eq_lit(key, "api.token") {
        config.api.token = Some(String::from_str(value));
        Ok(())
    } else if str_slice_eq_lit(key, "defaults.app_slug") {
        config.defaults.app_slug = Some(String::from_str(value));
        Ok(())
    } else if str_slice_eq_lit(key, "defaults.app_name") {
        config.defaults.app_name = Some(String::from_str(value));
        Ok(())
    } else if str_slice_eq_lit(key, "output.format") {
        if str_slice_eq_lit(value, "pretty") || str_slice_eq_lit(value, "json") {
            config.output.format = String::from_str(value);
            Ok(())
        } else {
            let mut m = String::new();
            m.append("output.format must be 'pretty' or 'json'");
            Err(RepriseError::InvalidArgument(m))
        }
    } else {
        let mut m = String::new();
        m.append("Unknown config key: ");
        m.append(key);
        m.append(". Valid keys: api.token, defaults.app_slug, defaults.app_name, output.format");
        proof {
            reveal_strlit("Unknown config key: ");
            reveal_strlit("Unknown config key");
            assert(m@.subrange(0, 18) =~= "Unknown config key"@);
        }
        Err(RepriseError::InvalidArgument(m))
    }
}

/// Whether a string slice equals a literal, character for character.
pub fn str_slice_eq_lit(s: &str, lit: &str) -> (b: bool)
    ensures
        b == (s@ == lit@),
{
    let a = str_chars(s);
    let c = str_chars(lit);
    proof {
        assert(s@.subrange(0, s@.len() as int) =~= s@);
    }
    if a.len() != c.len() {
        return false;
    }
    let r = crate::strutil::starts_with_chars(&a, &c);
    proof {
        if r {
            assert(s@ =~= lit@);
        }
    }
    r
}

} // verus!
