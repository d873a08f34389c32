//! Path strings that the loader and the environment setup need.

use vstd::prelude::*;
use vstd::string::*;

verus! {

/// The site-packages directory of a virtual environment:
/// `<venv>/lib/<python_version>/site-packages`. The caller sets the
/// runtime's module search path to this string before any worker starts.
pub fn site_packages_path(venv: &str, python_version: &str) -> (r: String)
    ensures
        r@ == venv@ + "/lib/"@ + python_version@ + "/site-packages"@,
{
    let mut s = String::from_str(venv);
    s.append("/lib/");
    s.append(python_version);
    s.append("/site-packages");
    s
}

/// The entry file that load-by-directory asks the loader for:
/// `<dir>/__init__.py`.
pub fn module_init_file(dir: &str) -> (r: String)
    ensures
        r@ == dir@ + "/__init__.py"@,
{
    let mut s = String::from_str(dir);
    s.append("/__init__.py");
    s
}

} // verus!
