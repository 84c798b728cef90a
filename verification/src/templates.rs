//! The manifest template written by `wmgr init`.
use crate::env_map::EnvMap;
use crate::text::owned;
use vstd::prelude::*;

verus! {

/// The default `wmgr.yaml` template.
pub const WMGR_TEMPLATE: &'static str = "# wmgr configuration file template\n#\n# Describe the repositories of the workspace and the groups they belong to.\n# Run `wmgr sync` after editing this file.\n\ngroups:\n  default:\n    repos:\n      - example\n\nrepositories:\n  - dest: example\n    url: https://github.com/example/example.git\n    branch: main\n";

/// The default `wmgr.yaml` template.
pub fn get_wmgr_template() -> (r: &'static str)
    ensures
        r@ == WMGR_TEMPLATE@,
{
    WMGR_TEMPLATE
}

/// Filling in templates.
#[derive(Debug, Clone, Copy)]
pub struct TemplateProcessor;

impl Default for TemplateProcessor {
    fn default() -> (r: Self) {
        TemplateProcessor
    }
}

impl TemplateProcessor {
    /// A processor.
    pub fn new() -> (r: Self) {
        TemplateProcessor
    }

    /// The processed template: replacements are accepted but not applied yet, so the
    /// text is returned as it is.
    pub fn process(&self, template: &str, replacements: Option<EnvMap>) -> (r: String)
        ensures
            r@ == template@,
    {
        owned(template)
    }

    /// The default template, processed without replacements.
    pub fn get_default_wmgr_template(&self) -> (r: String)
        ensures
            r@ == WMGR_TEMPLATE@,
    {
        let template = get_wmgr_template();
        self.process(template, None)
    }
}

} // verus!
