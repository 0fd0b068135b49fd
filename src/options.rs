use vstd::prelude::*;
use vstd::string::*;

verus! {

/// The character that separates the layers of an overlay's `lowerdir` option.
pub open spec fn layer_separator() -> char {
    ':'
}

/// Joins the layers with `:` between each pair of neighbours.
pub open spec fn join_layers(layers: Seq<Seq<char>>) -> Seq<char>
    decreases layers.len(),
{
    if layers.len() == 0 {
        seq![]
    } else if layers.len() == 1 {
        layers[0]
    } else {
        join_layers(layers.drop_last()) + seq![layer_separator()] + layers.last()
    }
}

/// The views of a list of paths.
pub open spec fn path_views(paths: Seq<String>) -> Seq<Seq<char>> {
    paths.map_values(|p: String| p@)
}

/// Builds the `lowerdir` value of an overlay: the layers in priority order,
/// then the lowest layer, joined by `:`.
pub fn lowerdir_option(lower_dirs: &Vec<String>, lowest: &str) -> (r: String)
    ensures
        r@ == join_layers(path_views(lower_dirs@).push(lowest@)),
{
    let mut out = String::new();
    let mut i: usize = 0;
    while i < lower_dirs.len()
        invariant
            i <= lower_dirs@.len(),
            out@ == join_layers(path_views(lower_dirs@.subrange(0, i as int))),
        decreases lower_dirs@.len() - i,
    {
        proof {
            reveal_strlit(":");
        }
        if i > 0 {
            out.append(":");
        }
        out.append(lower_dirs[i].as_str());
        proof {
            let pre = path_views(lower_dirs@.subrange(0, i as int));
            let post = path_views(lower_dirs@.subrange(0, i + 1));
            assert(post.drop_last() =~= pre);
            assert(post.last() == lower_dirs@[i as int]@);
        }
        i = i + 1;
    }
    proof {
        reveal_strlit(":");
    }
    if i > 0 {
        out.append(":");
    }
    out.append(lowest);
    proof {
        let all = path_views(lower_dirs@).push(lowest@);
        assert(lower_dirs@.subrange(0, i as int) =~= lower_dirs@);
        assert(all.drop_last() =~= path_views(lower_dirs@));
    }
    out
}


/// One `key=value` setting of a mount's option string.
pub open spec fn setting_text(key: Seq<char>, value: Seq<char>) -> Seq<char> {
    key + seq!['='] + value
}

/// Joins settings as `k1=v1,k2=v2,...`, the data string of a legacy mount call.
pub open spec fn settings_text(settings: Seq<(Seq<char>, Seq<char>)>) -> Seq<char>
    decreases settings.len(),
{
    if settings.len() == 0 {
        seq![]
    } else if settings.len() == 1 {
        setting_text(settings[0].0, settings[0].1)
    } else {
        settings_text(settings.drop_last()) + seq![',']
            + setting_text(settings.last().0, settings.last().1)
    }
}

/// The views of a list of `(key, value)` settings.
pub open spec fn setting_views(settings: Seq<(String, String)>) -> Seq<(Seq<char>, Seq<char>)> {
    settings.map_values(|kv: (String, String)| (kv.0@, kv.1@))
}

/// The settings of an overlay mount, shared by both ways of mounting it.
///
/// The writable pair is kept only when both of its directories were given:
/// the upper layer without its work directory (or the reverse) is ignored.
pub struct OverlayOptions {
    /// The name shown as the mount's source. The legacy call takes it as an
    /// argument of its own, not in its data string.
    pub source: String,
    pub lowerdir: String,
    pub upperdir: Option<String>,
    pub workdir: Option<String>,
}

impl OverlayOptions {
    /// Both members of the writable pair are present, or neither is.
    pub open spec fn wf(&self) -> bool {
        self.upperdir.is_some() == self.workdir.is_some()
    }

    /// The `source` setting.
    pub open spec fn spec_source_setting(&self) -> (Seq<char>, Seq<char>) {
        (seq!['s', 'o', 'u', 'r', 'c', 'e'], self.source@)
    }

    /// The settings handed one by one to a filesystem context, in order: the
    /// data settings, then the source.
    pub open spec fn spec_context_settings(&self) -> Seq<(Seq<char>, Seq<char>)> {
        self.spec_settings().push(self.spec_source_setting())
    }

    /// The settings of the overlay's data, in order: `lowerdir`, then
    /// `upperdir` and `workdir` when writable.
    pub open spec fn spec_settings(&self) -> Seq<(Seq<char>, Seq<char>)> {
        let lower = seq![(seq!['l', 'o', 'w', 'e', 'r', 'd', 'i', 'r'], self.lowerdir@)];
        match (self.upperdir, self.workdir) {
            (Some(u), Some(w)) => lower + seq![
                (seq!['u', 'p', 'p', 'e', 'r', 'd', 'i', 'r'], u@),
                (seq!['w', 'o', 'r', 'k', 'd', 'i', 'r'], w@),
            ],
            _ => lower,
        }
    }

    /// Gathers the options of an overlay whose lower layers are `lower_dirs`
    /// (highest priority first) above `lowest`, shown with `source` as its
    /// source. `upperdir` and `workdir` are the writable pair's directories
    /// that exist on disk.
    pub fn new(
        source: &str,
        lower_dirs: &Vec<String>,
        lowest: &str,
        upperdir: Option<String>,
        workdir: Option<String>,
    ) -> (r: OverlayOptions)
        ensures
            r.wf(),
            r.source@ == source@,
            r.lowerdir@ == join_layers(path_views(lower_dirs@).push(lowest@)),
            r.upperdir.is_some() <==> (upperdir.is_some() && workdir.is_some()),
            r.upperdir.is_some() ==> r.upperdir == upperdir && r.workdir == workdir,
    {
        let lowerdir = lowerdir_option(lower_dirs, lowest);
        let source = String::from_str(source);
        match (upperdir, workdir) {
            (Some(u), Some(w)) => OverlayOptions {
                source,
                lowerdir,
                upperdir: Some(u),
                workdir: Some(w),
            },
            _ => OverlayOptions { source, lowerdir, upperdir: None, workdir: None },
        }
    }

    /// Whether the overlay gets a writable upper layer.
    pub fn is_writable(&self) -> (r: bool)
        ensures
            r == self.upperdir.is_some(),
    {
        self.upperdir.is_some()
    }

    /// The `(key, value)` settings for a filesystem context, in the order they
    /// are applied: `lowerdir`, then `upperdir` and `workdir` when writable,
    /// then `source`.
    pub fn settings(&self) -> (r: Vec<(String, String)>)
        requires
            self.wf(),
        ensures
            setting_views(r@) == self.spec_context_settings(),
    {
        let mut r: Vec<(String, String)> = Vec::new();
        r.push((String::from_str("lowerdir"), self.lowerdir.clone()));
        match (&self.upperdir, &self.workdir) {
            (Some(u), Some(w)) => {
                r.push((String::from_str("upperdir"), u.clone()));
                r.push((String::from_str("workdir"), w.clone()));
            },
            _ => {},
        }
        r.push((String::from_str("source"), self.source.clone()));
        proof {
            reveal_strlit("source");
            assert("source"@ =~= seq!['s', 'o', 'u', 'r', 'c', 'e']);
            reveal_strlit("lowerdir");
            reveal_strlit("upperdir");
            reveal_strlit("workdir");
            assert("lowerdir"@ =~= seq!['l', 'o', 'w', 'e', 'r', 'd', 'i', 'r']);
            assert("upperdir"@ =~= seq!['u', 'p', 'p', 'e', 'r', 'd', 'i', 'r']);
            assert("workdir"@ =~= seq!['w', 'o', 'r', 'k', 'd', 'i', 'r']);
            assert(setting_views(r@) =~= self.spec_context_settings());
        }
        r
    }

    /// The data string of a legacy overlay mount call:
    /// `lowerdir=...`, followed by `,upperdir=...,workdir=...` when writable.
    pub fn legacy_data(&self) -> (r: String)
        requires
            self.wf(),
        ensures
            r@ == settings_text(self.spec_settings()),
    {
        proof {
            reveal_strlit("lowerdir=");
            reveal_strlit(",upperdir=");
            reveal_strlit(",workdir=");
        }
        let mut data = String::from_str("lowerdir=");
        data.append(self.lowerdir.as_str());
        let ghost first = data@;
        proof {
            let st = self.spec_settings();
            assert(settings_text(st.subrange(0, 1)) =~= first);
        }
        match (&self.upperdir, &self.workdir) {
            (Some(u), Some(w)) => {
                data.append(",upperdir=");
                data.append(u.as_str());
                let ghost second = data@;
                data.append(",workdir=");
                data.append(w.as_str());
                proof {
                    let st = self.spec_settings();
                    assert(st.subrange(0, 2).drop_last() =~= st.subrange(0, 1));
                    assert(settings_text(st.subrange(0, 2)) =~= second);
                    assert(st.drop_last() =~= st.subrange(0, 2));
                    assert(settings_text(st) =~= data@);
                }
            },
            _ => {
                proof {
                    let st = self.spec_settings();
                    assert(st =~= st.subrange(0, 1));
                }
            },
        }
        data
    }
}

/// Both ways of mounting an overlay carry the same settings: the context gets
/// the data settings and then the source; the legacy call gets that same
/// source as its own argument and the data settings written as `key=value`
/// pairs joined by `,`.
pub proof fn lemma_legacy_data_matches_settings(
    o: OverlayOptions,
    settings: Seq<(String, String)>,
    data: Seq<char>,
)
    requires
        o.wf(),
        setting_views(settings) == o.spec_context_settings(),
        data == settings_text(o.spec_settings()),
    ensures
        settings.len() >= 2,
        data == settings_text(setting_views(settings).drop_last()),
        setting_views(settings).last() == (seq!['s', 'o', 'u', 'r', 'c', 'e'], o.source@),
        setting_views(settings)[0].1 == o.lowerdir@,
{
    assert(setting_views(settings).drop_last() =~= o.spec_settings());
}

} // verus!
