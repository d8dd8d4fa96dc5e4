//! The persisted configuration that the daemon needs: the service credential
//! and the file holding the instruction text.
use vstd::prelude::*;
use vstd::string::StrSliceExecFns;

verus! {

#[derive(Clone, Debug)]
pub struct Config {
    pub openai_api_key: Option<String>,
    pub openai_prompt_file_path: Option<String>,
}

#[derive(Clone, Copy, Debug, PartialEq, Eq)]
pub enum ConfigError {
    /// No credential, or an empty one.
    MissingApiKey,
    /// No prompt file path, or an empty one.
    MissingPromptFile,
}

/// A configured value that the daemon can use: present and non-empty.
pub open spec fn usable(v: Option<String>) -> bool {
    v matches Some(s) && s@.len() > 0
}

impl Config {
    pub fn new(api_key: String, prompt_file: String) -> (r: Config)
        ensures
            r.openai_api_key == Some(api_key),
            r.openai_prompt_file_path == Some(prompt_file),
    {
        Config { openai_api_key: Some(api_key), openai_prompt_file_path: Some(prompt_file) }
    }

    pub fn get_openai_prompt_file_path(&self) -> (r: Option<String>)
        ensures
            r == self.openai_prompt_file_path,
    {
        self.openai_prompt_file_path.clone()
    }

    /// The credential and the prompt file path, which the daemon refuses to
    /// start without: an error names the first of the two that is absent or
    /// empty.
    pub fn daemon_settings(&self) -> (r: Result<(String, String), ConfigError>)
        ensures
            !usable(self.openai_api_key) ==> r == Err::<(String, String), ConfigError>(
                ConfigError::MissingApiKey,
            ),
            usable(self.openai_api_key) && !usable(self.openai_prompt_file_path) ==> r == Err::<
                (String, String),
                ConfigError,
            >(ConfigError::MissingPromptFile),
            usable(self.openai_api_key) && usable(self.openai_prompt_file_path) ==> r == Ok::<
                (String, String),
                ConfigError,
            >((self.openai_api_key->Some_0, self.openai_prompt_file_path->Some_0)),
    {
        let key = match &self.openai_api_key {
            Some(k) => if k.as_str().unicode_len() > 0 {
                k.clone()
            } else {
                return Err(ConfigError::MissingApiKey);
            },
            None => return Err(ConfigError::MissingApiKey),
        };
        match &self.openai_prompt_file_path {
            Some(p) => if p.as_str().unicode_len() > 0 {
                Ok((key, p.clone()))
            } else {
                Err(ConfigError::MissingPromptFile)
            },
            None => Err(ConfigError::MissingPromptFile),
        }
    }
}

} // verus!
