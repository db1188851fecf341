//! Recognizing model files found on local storage, in the Hugging Face cache
//! and in LM Studio's model folders. The host walks the directories; this
//! module decides what each file is.
use vstd::prelude::*;

use crate::shaping::chars_of;
use crate::trusted::{
    captures_of, components_of, extension_of, file_name_of, opt_text, parent_of, path_components,
    path_extension, path_file_name, path_parent, regex_captures,
};

verus! {

/// A model file found on local storage.
#[derive(Debug, Clone)]
pub struct ModelInfo {
    pub user: String,
    pub name: String,
    pub path: String,
}

/// The prefix of a Hugging Face cache folder that holds a model.
pub open spec fn models_prefix() -> Seq<char> {
    "models--"@
}

/// The pattern that splits such a folder name into owner and model name.
pub open spec fn hf_model_pattern() -> Seq<char> {
    "models--(.*)--(.*)"@
}

/// The text starts with `models--`.
pub open spec fn is_models_segment(s: Seq<char>) -> bool {
    s.len() >= 8 && s.subrange(0, 8) == models_prefix()
}

/// The first normal component that starts with `models--`.
pub open spec fn first_models_segment(parts: Seq<Option<Seq<char>>>) -> Option<Seq<char>>
    decreases parts.len(),
{
    if parts.len() == 0 {
        None
    } else {
        match parts[0] {
            Some(s) => if is_models_segment(s) {
                Some(s)
            } else {
                first_models_segment(parts.drop_first())
            },
            None => first_models_segment(parts.drop_first()),
        }
    }
}

/// The path names a GGUF model file.
pub open spec fn is_gguf(path: Seq<char>) -> bool {
    extension_of(path) == Some("gguf"@)
}

/// Owner and name of the model a Hugging Face cache file belongs to: a GGUF
/// file below a `models--<owner>--<name>` folder.
pub open spec fn hf_model_fields(path: Seq<char>) -> Option<(Seq<char>, Seq<char>)> {
    if !is_gguf(path) {
        None
    } else {
        match first_models_segment(components_of(path)) {
            None => None,
            Some(segment) => match captures_of(hf_model_pattern(), segment) {
                Some(groups) => owner_and_name_of(groups),
                None => None,
            },
        }
    }
}

/// Owner and name of the model an LM Studio file belongs to: a GGUF file in
/// a `<owner>/<name>/` folder.
pub open spec fn lm_studio_fields(path: Seq<char>) -> Option<(Seq<char>, Seq<char>)> {
    if !is_gguf(path) {
        None
    } else {
        match parent_of(path) {
            None => None,
            Some(dir) => match (file_name_of(dir), parent_of(dir)) {
                (Some(name), Some(up)) => match file_name_of(up) {
                    Some(user) => Some((user, name)),
                    None => None,
                },
                _ => None,
            },
        }
    }
}

/// `r` is the model `fields` describe, at `path`.
pub open spec fn model_info_for(
    fields: Option<(Seq<char>, Seq<char>)>,
    path: String,
    r: Option<ModelInfo>,
) -> bool {
    match fields {
        Some((user, name)) => r matches Some(info) && info.user@ == user && info.name@ == name
            && info.path == path,
        None => r is None,
    }
}

fn is_gguf_path(path: &str) -> (b: bool)
    ensures
        b == is_gguf(path@),
{
    proof {
        reveal_strlit("gguf");
    }
    match path_extension(path) {
        Some(e) => {
            let b = e == "gguf".to_owned();
            b
        },
        None => false,
    }
}

/// Whether a text starts with `models--`.
fn starts_with_models(s: &str) -> (b: bool)
    ensures
        b == is_models_segment(s@),
{
    proof {
        reveal_strlit("models--");
    }
    let c = chars_of(s);
    if c.len() < 8 {
        return false;
    }
    let b = c[0] == 'm' && c[1] == 'o' && c[2] == 'd' && c[3] == 'e' && c[4] == 'l' && c[5] == 's'
        && c[6] == '-' && c[7] == '-';
    proof {
        let sub = s@.subrange(0, 8);
        if b {
            assert(sub =~= models_prefix());
        } else if sub == models_prefix() {
            assert(sub[0] == models_prefix()[0] && sub[1] == models_prefix()[1]);
            assert(sub[2] == models_prefix()[2] && sub[3] == models_prefix()[3]);
            assert(sub[4] == models_prefix()[4] && sub[5] == models_prefix()[5]);
            assert(sub[6] == models_prefix()[6] && sub[7] == models_prefix()[7]);
        }
    }
    b
}

/// The first normal component that starts with `models--`, among path
/// components given in order (`None` standing for a component that is not a
/// normal one).
pub fn models_segment_in(parts: &Vec<Option<String>>) -> (r: Option<String>)
    ensures
        opt_text(r) == first_models_segment(parts@.map_values(|c: Option<String>| opt_text(c))),
{
    let ghost all = parts@.map_values(|c: Option<String>| opt_text(c));
    let n = parts.len();
    let mut i: usize = 0;
    proof {
        assert(all.subrange(0, n as int) =~= all);
    }
    while i < n
        invariant
            i <= n,
            n == parts@.len(),
            all == parts@.map_values(|c: Option<String>| opt_text(c)),
            first_models_segment(all) == first_models_segment(all.subrange(i as int, n as int)),
        decreases n - i,
    {
        let ghost rest = all.subrange(i as int, n as int);
        proof {
            assert(rest.drop_first() =~= all.subrange(i as int + 1, n as int));
            assert(rest[0] == opt_text(parts@[i as int]));
        }
        match &parts[i] {
            Some(s) => {
                if starts_with_models(s.as_str()) {
                    return Some(s.clone());
                }
            },
            None => {},
        }
        i = i + 1;
    }
    proof {
        assert(all.subrange(n as int, n as int).len() == 0);
    }
    None
}

/// The first component of a path that starts with `models--`: the cache
/// folder of the model the file belongs to.
pub fn find_models_path_segment(path: &str) -> (r: Option<String>)
    ensures
        opt_text(r) == first_models_segment(components_of(path@)),
{
    models_segment_in(&path_components(path))
}

/// Owner and model name from the capture groups of the cache-folder
/// pattern: groups 1 and 2, where both took part in the match.
pub open spec fn owner_and_name_of(groups: Seq<Option<Seq<char>>>) -> Option<(Seq<char>, Seq<char>)> {
    if groups.len() > 2 && groups[1] is Some && groups[2] is Some {
        Some((groups[1]->0, groups[2]->0))
    } else {
        None
    }
}

/// Owner and model name from the capture groups of the cache-folder
/// pattern.
pub fn owner_and_name(groups: &Vec<Option<String>>) -> (r: Option<(String, String)>)
    ensures
        match owner_and_name_of(groups@.map_values(|g: Option<String>| opt_text(g))) {
            Some((user, name)) => r matches Some((u, n)) && u@ == user && n@ == name,
            None => r is None,
        },
{
    let ghost view = groups@.map_values(|g: Option<String>| opt_text(g));
    if groups.len() <= 2 {
        return None;
    }
    proof {
        assert(view[1] == opt_text(groups@[1]));
        assert(view[2] == opt_text(groups@[2]));
    }
    let user = match &groups[1] {
        Some(u) => u.clone(),
        None => return None,
    };
    let name = match &groups[2] {
        Some(n) => n.clone(),
        None => return None,
    };
    Some((user, name))
}

/// The Hugging Face cache model a file is, if it is one.
pub fn huggingface_model_info(path: String) -> (r: Option<ModelInfo>)
    ensures
        model_info_for(hf_model_fields(path@), path, r),
{
    if !is_gguf_path(path.as_str()) {
        return None;
    }
    let segment = match find_models_path_segment(path.as_str()) {
        Some(s) => s,
        None => return None,
    };
    let groups = match regex_captures("models--(.*)--(.*)", segment.as_str()) {
        Some(g) => g,
        None => return None,
    };
    match owner_and_name(&groups) {
        Some((user, name)) => Some(ModelInfo { user, name, path }),
        None => None,
    }
}

/// The LM Studio model a file is, if it is one.
pub fn lm_studio_model_info(path: String) -> (r: Option<ModelInfo>)
    ensures
        model_info_for(lm_studio_fields(path@), path, r),
{
    if !is_gguf_path(path.as_str()) {
        return None;
    }
    let dir = match path_parent(path.as_str()) {
        Some(d) => d,
        None => return None,
    };
    let name = match path_file_name(dir.as_str()) {
        Some(n) => n,
        None => return None,
    };
    let up = match path_parent(dir.as_str()) {
        Some(u) => u,
        None => return None,
    };
    let user = match path_file_name(up.as_str()) {
        Some(u) => u,
        None => return None,
    };
    Some(ModelInfo { user, name, path })
}

} // verus!
