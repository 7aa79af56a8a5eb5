//! The options a scan recognises.  The core only carries them to the
//! walker and classifier at its boundary.

use vstd::prelude::*;

verus! {

/// Options recognised by a scan.  The core only carries them; reading
/// configuration files and walking directories belong to the caller.
pub struct Config {
    columns: Option<usize>,
    hidden: Option<bool>,
    no_ignore: Option<bool>,
    no_ignore_parent: Option<bool>,
    no_ignore_dot: Option<bool>,
    no_ignore_vcs: Option<bool>,
    treat_doc_strings_as_comments: Option<bool>,
}

/// The mathematical value of a `Config`.
#[verifier::ext_equal]
pub ghost struct ConfigView {
    pub columns: Option<usize>,
    pub hidden: Option<bool>,
    pub no_ignore: Option<bool>,
    pub no_ignore_parent: Option<bool>,
    pub no_ignore_dot: Option<bool>,
    pub no_ignore_vcs: Option<bool>,
    pub treat_doc_strings_as_comments: Option<bool>,
}

impl ConfigView {
    pub open spec fn unset() -> ConfigView {
        ConfigView {
            columns: None,
            hidden: None,
            no_ignore: None,
            no_ignore_parent: None,
            no_ignore_dot: None,
            no_ignore_vcs: None,
            treat_doc_strings_as_comments: None,
        }
    }
}

impl View for Config {
    type V = ConfigView;

    closed spec fn view(&self) -> ConfigView {
        ConfigView {
            columns: self.columns,
            hidden: self.hidden,
            no_ignore: self.no_ignore,
            no_ignore_parent: self.no_ignore_parent,
            no_ignore_dot: self.no_ignore_dot,
            no_ignore_vcs: self.no_ignore_vcs,
            treat_doc_strings_as_comments: self.treat_doc_strings_as_comments,
        }
    }
}

impl Config {
    /// Creates a configuration with every option unset.
    pub fn new() -> (r: Config)
        ensures
            r@ == ConfigView::unset(),
    {
        let r = Config {
            columns: None,
            hidden: None,
            no_ignore: None,
            no_ignore_parent: None,
            no_ignore_dot: None,
            no_ignore_vcs: None,
            treat_doc_strings_as_comments: None,
        };
        proof {
            assert(r@ =~= ConfigView::unset());
        }
        r
    }

    /// Creates a configuration from explicit option values.
    pub fn from_options(
        columns: Option<usize>,
        hidden: Option<bool>,
        no_ignore: Option<bool>,
        no_ignore_parent: Option<bool>,
        no_ignore_dot: Option<bool>,
        no_ignore_vcs: Option<bool>,
        treat_doc_strings_as_comments: Option<bool>,
    ) -> (r: Config)
        ensures
            r@ == (ConfigView {
                columns,
                hidden,
                no_ignore,
                no_ignore_parent,
                no_ignore_dot,
                no_ignore_vcs,
                treat_doc_strings_as_comments,
            }),
    {
        Config {
            columns,
            hidden,
            no_ignore,
            no_ignore_parent,
            no_ignore_dot,
            no_ignore_vcs,
            treat_doc_strings_as_comments,
        }
    }

    /// The output width preferred for presentation, if set.
    pub fn columns(&self) -> (r: Option<usize>)
        ensures
            r == self@.columns,
    {
        self.columns
    }

    /// Whether hidden files are included, if set.
    pub fn hidden(&self) -> (r: Option<bool>)
        ensures
            r == self@.hidden,
    {
        self.hidden
    }

    /// Whether ignore files are disregarded, if set.
    pub fn no_ignore(&self) -> (r: Option<bool>)
        ensures
            r == self@.no_ignore,
    {
        self.no_ignore
    }

    /// Whether ignore files of parent directories are disregarded, if set.
    pub fn no_ignore_parent(&self) -> (r: Option<bool>)
        ensures
            r == self@.no_ignore_parent,
    {
        self.no_ignore_parent
    }

    /// Whether `.ignore` files are disregarded, if set.
    pub fn no_ignore_dot(&self) -> (r: Option<bool>)
        ensures
            r == self@.no_ignore_dot,
    {
        self.no_ignore_dot
    }

    /// Whether version-control ignore files are disregarded, if set.
    pub fn no_ignore_vcs(&self) -> (r: Option<bool>)
        ensures
            r == self@.no_ignore_vcs,
    {
        self.no_ignore_vcs
    }

    /// Whether documentation strings count as comments rather than code,
    /// if set.
    pub fn treat_doc_strings_as_comments(&self) -> (r: Option<bool>)
        ensures
            r == self@.treat_doc_strings_as_comments,
    {
        self.treat_doc_strings_as_comments
    }
}

} // verus!
